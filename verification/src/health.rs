//! Health and readiness tracking for the bot runtime.

use vstd::prelude::*;

use crate::text::{decimal, push_decimal, push_str, chars_of, chars_range, next_word, owned, same_text, segment_end, split_on, string_from_range, words};

verus! {

/// The path an HTTP request asks for: the second whitespace-separated word of
/// its first line, or `/` when that line has fewer than two words.
pub open spec fn request_path_text(request: Seq<char>) -> Seq<char> {
    let first_line_words = words(split_on(request, '\n')[0]);
    if first_line_words.len() > 1 {
        first_line_words[1]
    } else {
        "/"@
    }
}

/// Returns the path an HTTP request asks for.
pub fn request_path(request: &str) -> (path: String)
    ensures
        path@ == request_path_text(request@),
{
    let chars = chars_of(request);
    assert(chars@.skip(0) =~= chars@);
    let line_end = segment_end(&chars, 0, '\n');
    let line = chars_range(&chars, 0, line_end);
    assert(split_on(request@, '\n')[0] == line@);
    assert(line@.skip(0) =~= line@);
    match next_word(&line, 0) {
        None => owned("/"),
        Some((_, first_end)) => match next_word(&line, first_end) {
            None => owned("/"),
            Some((start, end)) => string_from_range(&line, start, end),
        },
    }
}

/// The number of bytes of `text` in UTF-8.
pub open spec fn utf8_len(text: Seq<char>) -> nat {
    vstd::utf8::encode_utf8(text).len()
}

/// An HTTP/1.1 response closing the connection: the status line, the content
/// type, the body's length in bytes, and the body.
pub open spec fn http_response_text(status: u16, reason: Seq<char>, content_type: Seq<char>, body: Seq<char>) -> Seq<char> {
    "HTTP/1.1 "@ + decimal(status as nat) + " "@ + reason + "\r\nContent-Type: "@ + content_type
        + "\r\nContent-Length: "@ + decimal(utf8_len(body)) + "\r\nConnection: close\r\n\r\n"@ + body
}

/// Writes the HTTP response with `status`, `reason`, `content_type` and `body`.
pub fn render_http(status: u16, reason: &str, content_type: &str, body: &str) -> (text: String)
    ensures
        text@ == http_response_text(status, reason@, content_type@, body@),
{
    let body_len = body.as_bytes().len();
    let mut text = String::new();
    push_str(&mut text, "HTTP/1.1 ");
    push_decimal(&mut text, status as u64);
    push_str(&mut text, " ");
    push_str(&mut text, reason);
    push_str(&mut text, "\r\nContent-Type: ");
    push_str(&mut text, content_type);
    push_str(&mut text, "\r\nContent-Length: ");
    push_decimal(&mut text, body_len as u64);
    push_str(&mut text, "\r\nConnection: close\r\n\r\n");
    push_str(&mut text, body);
    assert(text@ =~= http_response_text(status, reason@, content_type@, body@));
    text
}

/// Content type of the status server's replies.
pub const HEALTH_CONTENT_TYPE: &'static str = "text/plain";

/// Address the status server listens on.
pub const HEALTH_ADDR: &'static str = "0.0.0.0:8080";

/// The connection stage of a gateway shard.
#[derive(Clone, Copy, Debug, PartialEq, Eq, Structural)]
pub enum ShardStage {
    /// Normally connected, not in, e.g., a resume phase.
    Connected,
    /// Connecting, e.g. in a resume phase.
    Connecting,
    /// Fully disconnected, not reconnecting.
    Disconnected,
    /// Initiating a handshake.
    Handshake,
    /// Sent an IDENTIFY packet, awaiting READY.
    Identifying,
    /// Sent a RESUME packet, awaiting RESUMED.
    Resuming,
}

/// A change of a shard's connection stage.
#[derive(Clone, Copy, Debug, PartialEq, Eq, Structural)]
pub struct StageUpdate {
    /// The new connection stage.
    pub new: ShardStage,
    /// The old connection stage.
    pub old: ShardStage,
}

/// Whether a stage counts as ready: only a connected shard does.
pub open spec fn stage_ready(stage: ShardStage) -> bool {
    stage is Connected
}

/// Readiness of the bot, as the status server reports it.
pub struct HealthState {
    ready: bool,
}

impl HealthState {
    /// Whether the bot is ready.
    pub closed spec fn readiness(&self) -> bool {
        self.ready
    }

    /// Creates a state that is not ready.
    pub fn new() -> (state: Self)
        ensures
            !state.readiness(),
    {
        HealthState { ready: false }
    }

    /// Marks the bot as ready.
    pub fn mark_ready(&mut self)
        ensures
            final(self).readiness(),
    {
        self.ready = true;
    }

    /// Marks the bot as not ready.
    pub fn mark_not_ready(&mut self)
        ensures
            !final(self).readiness(),
    {
        self.ready = false;
    }

    /// Returns whether the bot is ready.
    pub fn is_ready(&self) -> (ready: bool)
        ensures
            ready == self.readiness(),
    {
        self.ready
    }
}

impl Default for HealthState {
    fn default() -> (state: Self)
        ensures
            !state.readiness(),
    {
        Self::new()
    }
}

/// Returns whether the shard stage indicates a connected session.
pub fn stage_is_ready(stage: &ShardStage) -> (ready: bool)
    ensures
        ready == stage_ready(*stage),
{
    match stage {
        ShardStage::Connected => true,
        _ => false,
    }
}

/// The status and body the status server answers for `path`.
pub open spec fn status_reply(path: Seq<char>, ready: bool) -> (u16, Seq<char>) {
    if path == "/health"@ {
        (200, "ok"@)
    } else if path == "/ready"@ && ready {
        (200, "ready"@)
    } else if path == "/ready"@ {
        (503, "not ready"@)
    } else {
        (404, "not found"@)
    }
}

/// Answers a request for `path`: `/health` is always up, `/ready` reflects readiness.
pub fn status_for_path(path: &str, ready: bool) -> (reply: (u16, &'static str))
    ensures
        reply.0 == status_reply(path@, ready).0,
        reply.1@ == status_reply(path@, ready).1,
{
    if same_text(path, "/health") {
        (200, "ok")
    } else if same_text(path, "/ready") && ready {
        (200, "ready")
    } else if same_text(path, "/ready") {
        (503, "not ready")
    } else {
        (404, "not found")
    }
}

/// The reason phrase of a status code (`OK` for codes it does not name).
pub open spec fn reason_phrase(status: u16) -> Seq<char> {
    if status == 404 {
        "Not Found"@
    } else if status == 503 {
        "Service Unavailable"@
    } else {
        "OK"@
    }
}

/// Returns the reason phrase of a status code.
pub fn status_text(status: u16) -> (text: &'static str)
    ensures
        text@ == reason_phrase(status),
{
    match status {
        200 => "OK",
        404 => "Not Found",
        503 => "Service Unavailable",
        _ => "OK",
    }
}

/// Applies a shard stage change: ready exactly when the new stage is connected.
pub fn apply_stage_update(state: &mut HealthState, event: &StageUpdate)
    ensures
        final(state).readiness() == stage_ready(event.new),
{
    if stage_is_ready(&event.new) {
        state.mark_ready();
    } else {
        state.mark_not_ready();
    }
}

/// `/health` answers 200 whatever the readiness, and `/ready` answers 200
/// exactly when the bot is ready (503 otherwise).
pub proof fn lemma_health_and_readiness_replies(ready: bool)
    ensures
        status_reply("/health"@, ready).0 == 200,
        status_reply("/ready"@, ready).0 == (if ready { 200u16 } else { 503u16 }),
{
    reveal_strlit("/health");
    reveal_strlit("/ready");
    assert("/ready"@.len() != "/health"@.len());
}

/// Only a connected shard is ready: a shard that is connecting, resuming,
/// in its handshake, identifying (IDENTIFY sent, READY not yet received) or
/// disconnected is not, and `/ready` then answers 503.
pub proof fn lemma_only_connected_shards_are_ready(stage: ShardStage)
    ensures
        stage_ready(stage) <==> stage == ShardStage::Connected,
        stage != ShardStage::Connected ==> status_reply("/ready"@, stage_ready(stage)).0 == 503,
        stage == ShardStage::Connected ==> status_reply("/ready"@, stage_ready(stage)).0 == 200,
        !stage_ready(ShardStage::Connecting),
        !stage_ready(ShardStage::Disconnected),
        !stage_ready(ShardStage::Handshake),
        !stage_ready(ShardStage::Identifying),
        !stage_ready(ShardStage::Resuming),
{
    lemma_health_and_readiness_replies(stage_ready(stage));
}

} // verus!
