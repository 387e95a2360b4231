use seris::dashboard::{apply_stage_update, render_response, dashboard_page, response_for_path, stage_is_ready, DashboardState};
use seris::health::ShardStage;

#[test]
fn dashboard_route_returns_html() {
    let response = response_for_path("/", false, 65);

    assert_eq!(response.status, 200);
    assert_eq!(response.content_type, "text/html; charset=utf-8");
    assert!(response.body.contains("Seris Admin Dashboard"));
    assert!(response.body.contains("Connecting"));
    assert!(response.body.contains("1m 05s"));
}

#[test]
fn dashboard_ready_route_reflects_readiness() {
    let ready = response_for_path("/ready", true, 0);
    let not_ready = response_for_path("/ready", false, 0);

    assert_eq!(ready.status, 200);
    assert_eq!(ready.body, "ready");
    assert_eq!(not_ready.status, 503);
    assert_eq!(not_ready.body, "not ready");
}

#[test]
fn dashboard_only_connected_stage_is_ready() {
    assert!(stage_is_ready(&ShardStage::Connected));
    assert!(!stage_is_ready(&ShardStage::Disconnected));
    assert!(!stage_is_ready(&ShardStage::Connecting));
}

#[test]
fn stage_updates_flip_readiness() {
    let mut state = DashboardState::new();
    apply_stage_update(&mut state, ShardStage::Disconnected);
    assert!(!state.is_ready());

    apply_stage_update(&mut state, ShardStage::Connected);
    assert!(state.is_ready());
}

#[test]
fn dashboard_other_routes() {
    let health = response_for_path("/health", false, 0);
    assert_eq!(health.status, 200);
    assert_eq!(health.status_text, "OK");
    assert_eq!(health.content_type, "text/plain; charset=utf-8");
    assert_eq!(health.body, "ok");

    let missing = response_for_path("/nope", true, 0);
    assert_eq!(missing.status, 404);
    assert_eq!(missing.status_text, "Not Found");
    assert_eq!(missing.body, "not found");

    let page = response_for_path("/dashboard", true, 3_661);
    assert_eq!(page.status, 200);
    assert!(page.body.contains("Ready"));
    assert!(page.body.contains("#14532d"));
    assert!(page.body.contains("1h 01m 01s"));
    assert_eq!(page.body, dashboard_page(true, 3_661));
}

#[test]
fn dashboard_page_is_a_complete_document() {
    let html = dashboard_page(false, 5);
    assert!(html.starts_with("<!doctype html><html lang=\"en\">"));
    assert!(html.ends_with("</div></main></body></html>"));
    assert!(html.contains("<dd>5s</dd>"));
    assert!(html.contains("The bot is starting up or reconnecting to Discord."));
    assert!(html.contains("background:#78350f;color:#fcd34d;"));
}

#[test]
fn dashboard_state_starts_not_ready() {
    let mut state = DashboardState::default();
    assert!(!state.is_ready());
    state.mark_ready();
    assert!(state.is_ready());
    state.mark_not_ready();
    assert!(!state.is_ready());
    assert!(state.uptime() < 60);
}

#[test]
fn whole_seconds_drops_the_fraction() {
    assert_eq!(seris::clock::whole_seconds(0), 0);
    assert_eq!(seris::clock::whole_seconds(999_999_999), 0);
    assert_eq!(seris::clock::whole_seconds(3_500_000_000), 3);
}

#[test]
fn dashboard_response_is_framed() {
    let response = response_for_path("/health", true, 0);
    assert_eq!(
        render_response(&response),
        "HTTP/1.1 200 OK\r\nContent-Type: text/plain; charset=utf-8\r\nContent-Length: 2\r\nConnection: close\r\n\r\nok"
    );
    let page = response_for_path("/", true, 65);
    let text = render_response(&page);
    assert!(text.contains(&format!("Content-Length: {}\r\n", page.body.len())));
    assert!(text.ends_with(&page.body));
}
