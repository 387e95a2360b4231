use seris::health::{
    apply_stage_update, render_http, request_path, HEALTH_CONTENT_TYPE, stage_is_ready, status_for_path, status_text, HealthState, ShardStage,
    StageUpdate,
};

#[test]
fn health_route_is_always_ok() {
    assert_eq!(status_for_path("/health", false), (200, "ok"));
}

#[test]
fn health_ready_route_reflects_readiness() {
    assert_eq!(status_for_path("/ready", false), (503, "not ready"));
    assert_eq!(status_for_path("/ready", true), (200, "ready"));
}

#[test]
fn health_only_connected_stage_is_ready() {
    assert!(stage_is_ready(&ShardStage::Connected));
    assert!(!stage_is_ready(&ShardStage::Disconnected));
    assert!(!stage_is_ready(&ShardStage::Connecting));
}

#[test]
fn health_state_flips() {
    let mut state = HealthState::new();
    assert!(!state.is_ready());
    state.mark_ready();
    assert!(state.is_ready());
    state.mark_not_ready();
    assert!(!state.is_ready());
}

#[test]
fn health_unknown_route_and_reason_phrases() {
    assert_eq!(status_for_path("/", true), (404, "not found"));
    assert_eq!(status_text(200), "OK");
    assert_eq!(status_text(404), "Not Found");
    assert_eq!(status_text(503), "Service Unavailable");
    assert_eq!(status_text(418), "OK");
}

#[test]
fn health_stage_events_set_readiness() {
    let mut state = HealthState::default();
    apply_stage_update(
        &mut state,
        &StageUpdate {
            new: ShardStage::Connected,
            old: ShardStage::Identifying,
        },
    );
    assert!(state.is_ready());
    apply_stage_update(
        &mut state,
        &StageUpdate {
            new: ShardStage::Resuming,
            old: ShardStage::Connected,
        },
    );
    assert!(!state.is_ready());
    assert!(!stage_is_ready(&ShardStage::Handshake));
}

#[test]
fn request_path_is_the_second_word_of_the_first_line() {
    assert_eq!(request_path("GET /ready HTTP/1.1\r\nHost: x\r\n\r\n"), "/ready");
    assert_eq!(request_path("GET  /health\r\n"), "/health");
    assert_eq!(request_path("GET\r\nHost: /other\r\n"), "/");
    assert_eq!(request_path(""), "/");
}

#[test]
fn responses_are_framed_with_the_body_length_in_bytes() {
    assert_eq!(
        render_http(503, "Service Unavailable", HEALTH_CONTENT_TYPE, "not ready"),
        "HTTP/1.1 503 Service Unavailable\r\nContent-Type: text/plain\r\nContent-Length: 9\r\nConnection: close\r\n\r\nnot ready"
    );
    assert_eq!(
        render_http(200, "OK", "text/plain; charset=utf-8", "olá"),
        "HTTP/1.1 200 OK\r\nContent-Type: text/plain; charset=utf-8\r\nContent-Length: 4\r\nConnection: close\r\n\r\nolá"
    );
}
