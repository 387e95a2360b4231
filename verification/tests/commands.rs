use seris::commands::{about_message, cleared_message, ping_message, stats_message, uptime_message};
use seris::database::CommandUsageSummary;

#[test]
fn command_replies() {
    assert_eq!(ping_message(42), "P-pong... <@42>! 🐾✨");
    assert_eq!(
        about_message("1.2.3"),
        "S-sou a Seris v1.2.3\nConheço estes comandos: ping, clear, epic, apod, anime, manga, about, uptime, stats"
    );
    assert_eq!(uptime_message(3_661), "Estou ativa há 1h 01m 01s...");
    assert_eq!(cleared_message(1_700_000_000), "Houve uma limpeza de mensagens — <t:1700000000>.");
    assert_eq!(cleared_message(-5), "Houve uma limpeza de mensagens — <t:-5>.");
}

#[test]
fn stats_replies() {
    let summary = CommandUsageSummary {
        total_uses: 3,
        distinct_commands: 2,
        favorite_command: Some("ping".to_string()),
        favorite_count: 2,
    };
    assert_eq!(
        stats_message(&summary),
        "Pelo que vi, você usou 3 comandos em 2 comandos diferentes. Favorito: `/ping` (2 vezes)..."
    );
    let empty = CommandUsageSummary {
        total_uses: 0,
        distinct_commands: 0,
        favorite_command: None,
        favorite_count: 0,
    };
    assert_eq!(stats_message(&empty), "Ainda não tenho comandos salvos para você...");
    let extreme = CommandUsageSummary {
        total_uses: i64::MIN,
        distinct_commands: i64::MAX,
        favorite_command: Some("x".to_string()),
        favorite_count: 0,
    };
    assert_eq!(
        stats_message(&extreme),
        "Pelo que vi, você usou -9223372036854775808 comandos em 9223372036854775807 comandos diferentes. Favorito: `/x` (0 vezes)..."
    );
}
