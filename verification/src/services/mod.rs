//! Clients of the outside HTTP APIs: what they request and how replies become values.

pub mod epic;
pub mod http;
pub mod jikan;
pub mod nasa;
