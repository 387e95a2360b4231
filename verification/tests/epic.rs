use seris::epic::{parse_action, ClickOutcome, EpicAction, EpicSession, GallerySessions};
use seris::services::epic::EpicImage;

fn image(id: &str, caption: &str, date: &str, url: &str) -> EpicImage {
    EpicImage {
        image: id.to_string(),
        caption: caption.to_string(),
        date: date.to_string(),
        url: url.to_string(),
    }
}

fn two_page_session() -> EpicSession {
    EpicSession::new(
        1,
        "natural".to_string(),
        vec![
            image("1", "one", "2026-04-09 00:00:00", "https://example.com/1"),
            image("2", "two", "2026-04-09 00:00:01", "https://example.com/2"),
        ],
    )
}

#[test]
fn parses_actions() {
    assert_eq!(parse_action("epic:first"), Some(EpicAction::First));
    assert_eq!(parse_action("epic:prev"), Some(EpicAction::Prev));
    assert_eq!(parse_action("epic:next"), Some(EpicAction::Next));
    assert_eq!(parse_action("epic:last"), Some(EpicAction::Last));
    assert_eq!(parse_action("noop"), None);
}

#[test]
fn navigates_pages() {
    let mut session = two_page_session();

    assert_eq!(session.current_index(), 0);
    session.navigate(EpicAction::Next);
    assert_eq!(session.current_index(), 1);
    session.navigate(EpicAction::Prev);
    assert_eq!(session.current_index(), 0);
    session.navigate(EpicAction::Last);
    assert_eq!(session.current_index(), 1);
}

#[test]
fn navigation_saturates_at_both_ends() {
    let mut session = two_page_session();
    session.navigate(EpicAction::Prev);
    assert_eq!(session.current_index(), 0);
    session.navigate(EpicAction::Last);
    session.navigate(EpicAction::Next);
    assert_eq!(session.current_index(), 1);
    session.navigate(EpicAction::First);
    assert_eq!(session.current_index(), 0);

    let mut empty = EpicSession::new(1, "natural".to_string(), Vec::new());
    empty.navigate(EpicAction::Next);
    assert_eq!(empty.current_index(), 0);
    empty.navigate(EpicAction::Last);
    assert_eq!(empty.current_index(), 0);
    assert_eq!(empty.total_pages(), 0);
}

#[test]
fn parse_action_needs_the_exact_identifier() {
    assert_eq!(parse_action("first"), None);
    assert_eq!(parse_action("epic:First"), None);
    assert_eq!(parse_action("epic:first "), None);
    assert_eq!(parse_action(""), None);
}

#[test]
fn buttons_follow_the_page() {
    let mut session = two_page_session();
    let buttons = session.components();
    let ids: Vec<&str> = buttons.iter().map(|b| b.custom_id.as_str()).collect();
    let labels: Vec<&str> = buttons.iter().map(|b| b.label.as_str()).collect();
    let disabled: Vec<bool> = buttons.iter().map(|b| b.disabled).collect();
    assert_eq!(ids, vec!["epic:first", "epic:prev", "epic:next", "epic:last"]);
    assert_eq!(labels, vec!["Primeira", "Anterior", "Próxima", "Última"]);
    assert_eq!(disabled, vec![true, true, false, false]);

    session.navigate(EpicAction::Last);
    let disabled: Vec<bool> = session.components().iter().map(|b| b.disabled).collect();
    assert_eq!(disabled, vec![false, false, true, true]);
}

#[test]
fn session_embed_shows_the_current_page() {
    let mut session = two_page_session();
    session.navigate(EpicAction::Next);
    let embed = session.embed();
    assert_eq!(embed.title, "EPIC natural");
    assert_eq!(embed.description, "two");
    assert_eq!(embed.image.as_deref(), Some("https://example.com/2"));
    assert_eq!(embed.footer.as_deref(), Some("Página 2/2 • 2026-04-09 • 2"));
    assert_eq!(session.kind(), "natural");
    assert_eq!(session.current_image().caption, "two");
    assert_eq!(session.owner_id(), 1);
}

#[test]
fn gallery_clicks_check_owner_and_move() {
    let mut galleries = GallerySessions::new();
    galleries.open(10, two_page_session());

    assert!(matches!(galleries.handle_click(10, 1, "noop"), ClickOutcome::Ignored));
    assert!(matches!(galleries.handle_click(99, 1, "epic:next"), ClickOutcome::Missing));
    assert!(matches!(galleries.handle_click(10, 2, "epic:next"), ClickOutcome::Forbidden));

    match galleries.handle_click(10, 1, "epic:next") {
        ClickOutcome::Updated { embed, buttons } => {
            assert_eq!(embed.description, "two");
            assert!(buttons[2].disabled);
            assert!(!buttons[0].disabled);
        }
        _ => panic!("expected the owner's click to move the gallery"),
    }

    match galleries.handle_click(10, 1, "epic:prev") {
        ClickOutcome::Updated { embed, .. } => assert_eq!(embed.description, "one"),
        _ => panic!("expected the owner's click to move the gallery"),
    }
}
