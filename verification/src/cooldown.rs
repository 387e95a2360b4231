//! Per-user command cooldowns.
//!
//! Each `(command, user)` pair remembers the instant at which its cooldown
//! expires. Instants and durations are whole nanoseconds on a monotonic clock
//! chosen by the caller.

use dashmap::DashMap;
use vstd::prelude::*;

use crate::duration::{duration_text, format_duration};
use crate::text::push_str;

verus! {

/// A concurrent table from `(command, user)` to the instant a cooldown expires.
pub type CooldownTable = DashMap<(&'static str, u64), u64>;

/// The expiry instants that a cooldown table holds, keyed by the command's
/// text and the user's id.
pub uninterp spec fn cooldown_entries(table: CooldownTable) -> Map<(Seq<char>, u64), u64>;

/// The table in which no cooldown is running.
pub open spec fn no_cooldowns() -> Map<(Seq<char>, u64), u64> {
    Map::empty()
}

/// `DashMap::new`: the new table holds no entry.
#[verifier::external_body]
fn new_cooldown_table() -> (created: CooldownTable)
    ensures
        cooldown_entries(created) == no_cooldowns(),
{
    DashMap::new()
}

/// `DashMap::get`: the value stored under a key equal to `(command, user)`, if any.
/// Keys compare by the command's text and the user id, as `Eq` on `(&str, u64)` does.
#[verifier::external_body]
fn cooldown_lookup(table: &CooldownTable, command: &'static str, user: u64) -> (found: Option<u64>)
    ensures
        found == (if cooldown_entries(*table).contains_key((command@, user)) {
            Some(cooldown_entries(*table)[(command@, user)])
        } else {
            None
        }),
{
    match table.get(&(command, user)) {
        Some(entry) => Some(*entry.value()),
        None => None,
    }
}

/// `DashMap::insert`: stores `expires` under `(command, user)`, replacing any
/// earlier value, which it returns.
#[verifier::external_body]
fn cooldown_store(table: &mut CooldownTable, command: &'static str, user: u64, expires: u64) -> (previous: Option<u64>)
    ensures
        cooldown_entries(*final(table)) == cooldown_entries(*old(table)).insert((command@, user), expires),
        previous == (if cooldown_entries(*old(table)).contains_key((command@, user)) {
            Some(cooldown_entries(*old(table))[(command@, user)])
        } else {
            None
        }),
{
    table.insert((command, user), expires)
}

/// What a request for `key` at `now` is answered: the time left when the
/// stored expiry still lies in the future, and nothing otherwise.
pub open spec fn acquire_wait(entries: Map<(Seq<char>, u64), u64>, key: (Seq<char>, u64), now: u64) -> Option<u64> {
    if entries.contains_key(key) && entries[key] > now {
        Some((entries[key] - now) as u64)
    } else {
        None
    }
}

/// The table after a request for `key` at `now`: unchanged when the request is
/// refused, and otherwise holding the new expiry `now + cooldown`.
pub open spec fn acquire_entries(
    entries: Map<(Seq<char>, u64), u64>,
    key: (Seq<char>, u64),
    cooldown: u64,
    now: u64,
) -> Map<(Seq<char>, u64), u64> {
    if acquire_wait(entries, key, now) is Some {
        entries
    } else {
        entries.insert(key, (now + cooldown) as u64)
    }
}

/// A tracker in which no cooldown runs accepts any first request.
pub proof fn lemma_first_request_is_accepted(key: (Seq<char>, u64), now: u64)
    ensures
        acquire_wait(no_cooldowns(), key, now) is None,
{
}

/// A refused request leaves every cooldown as it was.
pub proof fn lemma_refusal_changes_nothing(
    entries: Map<(Seq<char>, u64), u64>,
    key: (Seq<char>, u64),
    cooldown: u64,
    now: u64,
)
    requires
        acquire_wait(entries, key, now) is Some,
    ensures
        acquire_entries(entries, key, cooldown, now) == entries,
{
}

/// After an accepted request, a later request for the same command and user
/// is refused until the cooldown has run out, and is told exactly the time
/// that is left; from the expiry on it is accepted again.
pub proof fn lemma_repeat_waits_for_expiry(
    entries: Map<(Seq<char>, u64), u64>,
    key: (Seq<char>, u64),
    cooldown: u64,
    now: u64,
    later: u64,
)
    requires
        acquire_wait(entries, key, now) is None,
        now <= later,
        now + cooldown <= u64::MAX,
    ensures
        later < now + cooldown ==> acquire_wait(acquire_entries(entries, key, cooldown, now), key, later)
            == Some((now + cooldown - later) as u64),
        later >= now + cooldown ==> acquire_wait(acquire_entries(entries, key, cooldown, now), key, later)
            is None,
{
}

/// The wait a request is told never exceeds the cooldown that started it.
pub proof fn lemma_wait_is_bounded_by_cooldown(
    entries: Map<(Seq<char>, u64), u64>,
    key: (Seq<char>, u64),
    cooldown: u64,
    now: u64,
    later: u64,
)
    requires
        acquire_wait(entries, key, now) is None,
        now <= later,
        now + cooldown <= u64::MAX,
    ensures
        acquire_wait(acquire_entries(entries, key, cooldown, now), key, later) matches Some(wait)
            ==> wait <= cooldown,
{
}

/// Cooldowns of different commands, or of different users, are independent:
/// a request for one key changes nothing another key is answered.
pub proof fn lemma_keys_are_independent(
    entries: Map<(Seq<char>, u64), u64>,
    key: (Seq<char>, u64),
    other: (Seq<char>, u64),
    cooldown: u64,
    now: u64,
    at: u64,
)
    requires
        key != other,
    ensures
        acquire_wait(acquire_entries(entries, key, cooldown, now), other, at) == acquire_wait(entries, other, at),
{
}

/// Tracks, per command and user, when the next use is allowed.
pub struct CooldownTracker {
    entries: CooldownTable,
}

impl View for CooldownTracker {
    type V = Map<(Seq<char>, u64), u64>;

    closed spec fn view(&self) -> Map<(Seq<char>, u64), u64> {
        cooldown_entries(self.entries)
    }
}

impl CooldownTracker {
    /// Creates a tracker with no cooldown in effect.
    pub fn new() -> (tracker: Self)
        ensures
            tracker@ == no_cooldowns(),
    {
        CooldownTracker { entries: new_cooldown_table() }
    }

    /// Tries to start a cooldown for `command` and `user_id` at `now`.
    ///
    /// Returns the time left when a cooldown is still running (and changes
    /// nothing); otherwise records that the cooldown now lasts until
    /// `now + cooldown` and returns `None`.
    pub fn try_acquire(&mut self, command: &'static str, user_id: u64, cooldown: u64, now: u64) -> (wait: Option<u64>)
        requires
            now + cooldown <= u64::MAX,
        ensures
            wait == acquire_wait(old(self)@, (command@, user_id), now),
            final(self)@ == acquire_entries(old(self)@, (command@, user_id), cooldown, now),
    {
        let expires_at = now + cooldown;
        match cooldown_lookup(&self.entries, command, user_id) {
            Some(current) => {
                if current > now {
                    Some(current - now)
                } else {
                    cooldown_store(&mut self.entries, command, user_id, expires_at);
                    None
                }
            },
            None => {
                cooldown_store(&mut self.entries, command, user_id, expires_at);
                None
            },
        }
    }
}

/// Nanoseconds in a second.
pub const NANOS_PER_SECOND: u64 = 1_000_000_000;

/// The warning sent to a user whose cooldown is still running.
pub open spec fn cooldown_message_text(command: Seq<char>, wait_nanos: u64) -> Seq<char> {
    "Aguarde "@ + duration_text((wait_nanos / 1_000_000_000) as nat) + " antes de usar `/"@ + command
        + "` novamente."@
}

/// Builds the cooldown warning for `command` with `wait_nanos` left.
pub fn cooldown_message(command: &str, wait_nanos: u64) -> (message: String)
    ensures
        message@ == cooldown_message_text(command@, wait_nanos),
{
    let mut message = String::new();
    push_str(&mut message, "Aguarde ");
    let wait = format_duration(wait_nanos / NANOS_PER_SECOND);
    push_str(&mut message, wait.as_str());
    push_str(&mut message, " antes de usar `/");
    push_str(&mut message, command);
    push_str(&mut message, "` novamente.");
    assert(message@ =~= cooldown_message_text(command@, wait_nanos));
    message
}

} // verus!
