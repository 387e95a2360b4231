//! Lightweight admin dashboard and runtime status replies.

use std::time::Instant;
use vstd::prelude::*;

use crate::clock::{elapsed_nanos, monotonic_now, whole_seconds};
use crate::duration::{duration_text, format_duration};
use crate::health::{http_response_text, render_http, stage_ready, ShardStage};
use crate::text::{owned, push_str, same_text};

verus! {

/// Address the dashboard listens on.
pub const DASHBOARD_ADDR: &'static str = "0.0.0.0:8080";

/// Shared runtime state exposed to the dashboard.
pub struct DashboardState {
    ready: bool,
    started_at: Instant,
}

impl DashboardState {
    /// Whether the bot is connected and ready.
    pub closed spec fn readiness(&self) -> bool {
        self.ready
    }

    /// The instant the bot started, from which uptime is counted.
    pub closed spec fn start_instant(&self) -> Instant {
        self.started_at
    }

    /// Creates a new dashboard state snapshot: not ready, started now.
    pub fn new() -> (state: Self)
        ensures
            !state.readiness(),
    {
        DashboardState { ready: false, started_at: monotonic_now() }
    }

    /// Marks the bot as ready.
    pub fn mark_ready(&mut self)
        ensures
            final(self).readiness(),
            final(self).start_instant() == old(self).start_instant(),
    {
        self.ready = true;
    }

    /// Marks the bot as not ready.
    pub fn mark_not_ready(&mut self)
        ensures
            !final(self).readiness(),
            final(self).start_instant() == old(self).start_instant(),
    {
        self.ready = false;
    }

    /// Returns whether the bot is connected and ready.
    pub fn is_ready(&self) -> (ready: bool)
        ensures
            ready == self.readiness(),
    {
        self.ready
    }

    /// Returns the whole seconds elapsed since `start_instant()`. The value
    /// depends on the clock and is not stated.
    pub fn uptime(&self) -> u64 {
        whole_seconds(elapsed_nanos(&self.started_at))
    }
}

impl Default for DashboardState {
    fn default() -> (state: Self)
        ensures
            !state.readiness(),
    {
        Self::new()
    }
}

/// Returns whether the shard stage indicates a connected session.
pub fn stage_is_ready(stage: &ShardStage) -> (ready: bool)
    ensures
        ready == stage_ready(*stage),
{
    crate::health::stage_is_ready(stage)
}

/// Applies a shard stage change to the dashboard state: ready exactly when connected.
pub fn apply_stage_update(state: &mut DashboardState, stage: ShardStage)
    ensures
        final(state).readiness() == stage_ready(stage),
        final(state).start_instant() == old(state).start_instant(),
{
    if stage_is_ready(&stage) {
        state.mark_ready();
    } else {
        state.mark_not_ready();
    }
}

/// An HTTP reply of the status server.
pub struct Response {
    /// Status code.
    pub status: u16,
    /// Reason phrase of the status.
    pub status_text: &'static str,
    /// Content type of the body.
    pub content_type: &'static str,
    /// Body.
    pub body: String,
}

/// Writes `response` as the HTTP text sent on the socket.
pub fn render_response(response: &Response) -> (text: String)
    ensures
        text@ == http_response_text(response.status, response.status_text@, response.content_type@, response.body@),
{
    render_http(response.status, response.status_text, response.content_type, response.body.as_str())
}

/// The reply for `path`: the dashboard page at `/` and `/dashboard`, `ok` at
/// `/health`, the readiness at `/ready` (503 while not ready), and 404 elsewhere.
pub open spec fn reply_for(path: Seq<char>, ready: bool, uptime: u64) -> (u16, Seq<char>, Seq<char>, Seq<char>) {
    if path == "/"@ || path == "/dashboard"@ {
        (200, "OK"@, "text/html; charset=utf-8"@, dashboard_html(ready, uptime))
    } else if path == "/health"@ {
        (200, "OK"@, "text/plain; charset=utf-8"@, "ok"@)
    } else if path == "/ready"@ && ready {
        (200, "OK"@, "text/plain; charset=utf-8"@, "ready"@)
    } else if path == "/ready"@ {
        (503, "Service Unavailable"@, "text/plain; charset=utf-8"@, "not ready"@)
    } else {
        (404, "Not Found"@, "text/plain; charset=utf-8"@, "not found"@)
    }
}

/// Whether `response` is the reply `reply`.
pub open spec fn is_reply(response: Response, reply: (u16, Seq<char>, Seq<char>, Seq<char>)) -> bool {
    &&& response.status == reply.0
    &&& response.status_text@ == reply.1
    &&& response.content_type@ == reply.2
    &&& response.body@ == reply.3
}

/// Builds the reply for a request of `path`.
pub fn response_for_path(path: &str, ready: bool, uptime_secs: u64) -> (response: Response)
    ensures
        is_reply(response, reply_for(path@, ready, uptime_secs)),
{
    if same_text(path, "/") || same_text(path, "/dashboard") {
        Response {
            status: 200,
            status_text: "OK",
            content_type: "text/html; charset=utf-8",
            body: dashboard_page(ready, uptime_secs),
        }
    } else if same_text(path, "/health") {
        Response { status: 200, status_text: "OK", content_type: "text/plain; charset=utf-8", body: owned("ok") }
    } else if same_text(path, "/ready") && ready {
        Response { status: 200, status_text: "OK", content_type: "text/plain; charset=utf-8", body: owned("ready") }
    } else if same_text(path, "/ready") {
        Response {
            status: 503,
            status_text: "Service Unavailable",
            content_type: "text/plain; charset=utf-8",
            body: owned("not ready"),
        }
    } else {
        Response {
            status: 404,
            status_text: "Not Found",
            content_type: "text/plain; charset=utf-8",
            body: owned("not found"),
        }
    }
}

/// The status label of the dashboard.
pub open spec fn status_label_text(ready: bool) -> Seq<char> {
    if ready { "Ready"@ } else { "Connecting"@ }
}

/// The sentence under the dashboard's title.
pub open spec fn status_blurb_text(ready: bool) -> Seq<char> {
    if ready {
        "The bot is connected to Discord and can serve commands."@
    } else {
        "The bot is starting up or reconnecting to Discord."@
    }
}

/// The badge's background color.
pub open spec fn badge_background(ready: bool) -> Seq<char> {
    if ready { "#14532d"@ } else { "#78350f"@ }
}

/// The badge's text color.
pub open spec fn badge_foreground(ready: bool) -> Seq<char> {
    if ready { "#86efac"@ } else { "#fcd34d"@ }
}

/// The dashboard page: a fixed HTML template showing the readiness (badge
/// colors, label and sentence) and the uptime.
pub open spec fn dashboard_html(ready: bool, uptime: u64) -> Seq<char> {
    "<!doctype html><html lang=\"en\"><head><meta charset=\"utf-8\"><meta name=\"viewport\" content=\"width=device-width, initial-scale=1\"><title>Seris Admin Dashboard</title><style>body{margin:0;font-family:system-ui,-apple-system,Segoe UI,sans-serif;background:#0f172a;color:#e2e8f0;}main{max-width:820px;margin:0 auto;padding:48px 24px;}.panel{background:#111827;border:1px solid #1f2937;border-radius:16px;padding:24px;box-shadow:0 10px 30px rgba(0,0,0,.2);}.badge{display:inline-flex;align-items:center;padding:6px 12px;border-radius:999px;font-size:12px;font-weight:700;letter-spacing:.08em;text-transform:uppercase;background:"@ + badge_background(ready) + ";color:"@ + badge_foreground(ready) + ";}h1{margin:16px 0 8px;font-size:clamp(2rem,4vw,3rem);}p{line-height:1.6;color:#cbd5e1;}dl{display:grid;grid-template-columns:140px 1fr;gap:12px 16px;margin:24px 0 0;}dt{color:#94a3b8;font-weight:600;}dd{margin:0;color:#f8fafc;}.links{margin-top:24px;display:flex;flex-wrap:wrap;gap:12px;}a{color:#93c5fd;text-decoration:none;}a:hover{text-decoration:underline;}footer{margin-top:20px;color:#64748b;font-size:14px;}</style></head><body><main><div class=\"panel\"><span class=\"badge\">"@ + status_label_text(ready)
        + "</span><h1>Seris Admin Dashboard</h1><p>"@ + status_blurb_text(ready) + "</p><dl><dt>Uptime</dt><dd>"@ + duration_text(uptime as nat) + "</dd><dt>Health</dt><dd><a href=\"/health\">/health</a></dd><dt>Readiness</dt><dd><a href=\"/ready\">/ready</a></dd></dl><div class=\"links\"><a href=\"/dashboard\">Refresh dashboard</a></div><footer>Built for lightweight operational checks and manual oversight.</footer></div></main></body></html>"@
}

/// Renders the dashboard page for the given readiness and uptime in seconds.
pub fn dashboard_page(ready: bool, uptime_secs: u64) -> (html: String)
    ensures
        html@ == dashboard_html(ready, uptime_secs),
{
    let mut html = String::new();
    push_str(&mut html, "<!doctype html><html lang=\"en\"><head><meta charset=\"utf-8\"><meta name=\"viewport\" content=\"width=device-width, initial-scale=1\"><title>Seris Admin Dashboard</title><style>body{margin:0;font-family:system-ui,-apple-system,Segoe UI,sans-serif;background:#0f172a;color:#e2e8f0;}main{max-width:820px;margin:0 auto;padding:48px 24px;}.panel{background:#111827;border:1px solid #1f2937;border-radius:16px;padding:24px;box-shadow:0 10px 30px rgba(0,0,0,.2);}.badge{display:inline-flex;align-items:center;padding:6px 12px;border-radius:999px;font-size:12px;font-weight:700;letter-spacing:.08em;text-transform:uppercase;background:");
    push_str(&mut html, if ready { "#14532d" } else { "#78350f" });
    push_str(&mut html, ";color:");
    push_str(&mut html, if ready { "#86efac" } else { "#fcd34d" });
    push_str(&mut html, ";}h1{margin:16px 0 8px;font-size:clamp(2rem,4vw,3rem);}p{line-height:1.6;color:#cbd5e1;}dl{display:grid;grid-template-columns:140px 1fr;gap:12px 16px;margin:24px 0 0;}dt{color:#94a3b8;font-weight:600;}dd{margin:0;color:#f8fafc;}.links{margin-top:24px;display:flex;flex-wrap:wrap;gap:12px;}a{color:#93c5fd;text-decoration:none;}a:hover{text-decoration:underline;}footer{margin-top:20px;color:#64748b;font-size:14px;}</style></head><body><main><div class=\"panel\"><span class=\"badge\">");
    push_str(&mut html, if ready { "Ready" } else { "Connecting" });
    push_str(&mut html, "</span><h1>Seris Admin Dashboard</h1><p>");
    push_str(
        &mut html,
        if ready {
            "The bot is connected to Discord and can serve commands."
        } else {
            "The bot is starting up or reconnecting to Discord."
        },
    );
    push_str(&mut html, "</p><dl><dt>Uptime</dt><dd>");
    let uptime = format_duration(uptime_secs);
    push_str(&mut html, uptime.as_str());
    push_str(&mut html, "</dd><dt>Health</dt><dd><a href=\"/health\">/health</a></dd><dt>Readiness</dt><dd><a href=\"/ready\">/ready</a></dd></dl><div class=\"links\"><a href=\"/dashboard\">Refresh dashboard</a></div><footer>Built for lightweight operational checks and manual oversight.</footer></div></main></body></html>");
    assert(html@ =~= dashboard_html(ready, uptime_secs));
    html
}

} // verus!
