//! Seris: the verified core of a calm Discord bot.

pub mod benchmarks;
pub mod calendar;
pub mod cli;
pub mod clock;
pub mod commands;
pub mod config;
pub mod cooldown;
pub mod dashboard;
pub mod database;
pub mod duration;
pub mod embeds;
pub mod epic;
pub mod health;
pub mod reminders;
pub mod services;
pub mod tables;
pub mod types;
pub mod update;
pub mod text;
