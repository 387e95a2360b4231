//! Retries, timeouts and circuit breaking around outside HTTP requests.
//!
//! A fetch is driven as a state machine: the caller performs each request and
//! each pause, and reports what happened; [`on_outcome`] decides what comes
//! next. A [`CircuitBreaker`] remembers failures per service and refuses
//! requests for a while after too many in a row. Instants and durations are
//! whole nanoseconds on a monotonic clock chosen by the caller.

use vstd::prelude::*;

use crate::text::same_text;
use crate::types::SerisError;

verus! {

/// Number of attempts a request gets by default.
pub const MAX_ATTEMPTS: u32 = 3;

/// Pause before the first retry by default: 200 ms.
pub const INITIAL_BACKOFF: u64 = 200_000_000;

/// Time an attempt may take by default: 3 s.
pub const REQUEST_TIMEOUT: u64 = 3_000_000_000;

/// Failures in a row after which a service's circuit opens.
pub const CIRCUIT_FAILURE_THRESHOLD: u32 = 3;

/// How long an open circuit refuses requests: 30 s.
pub const CIRCUIT_OPEN_DURATION: u64 = 30_000_000_000;

/// How hard a request is tried.
#[derive(Clone, Copy, Debug, PartialEq, Eq, Structural)]
pub struct RequestPolicy {
    /// Number of attempts.
    pub attempts: u32,
    /// Time an attempt may take, in nanoseconds.
    pub timeout: u64,
    /// Pause before the first retry, in nanoseconds; each further retry waits twice as long.
    pub initial_backoff: u64,
}

impl Default for RequestPolicy {
    fn default() -> (policy: Self)
        ensures
            policy == (RequestPolicy { attempts: MAX_ATTEMPTS, timeout: REQUEST_TIMEOUT, initial_backoff: INITIAL_BACKOFF }),
    {
        RequestPolicy { attempts: MAX_ATTEMPTS, timeout: REQUEST_TIMEOUT, initial_backoff: INITIAL_BACKOFF }
    }
}

/// Whether a response status is worth retrying: 429 Too Many Requests or a server error (5xx).
pub open spec fn retryable_status(status: u16) -> bool {
    status == 429 || (500 <= status <= 599)
}

/// Tests whether a response status is worth retrying.
pub fn is_retryable_status(status: u16) -> (retryable: bool)
    ensures
        retryable == retryable_status(status),
{
    status == 429 || (500 <= status && status <= 599)
}

/// Whether a response status is a success (2xx).
pub open spec fn success_status(status: u16) -> bool {
    200 <= status <= 299
}

/// The failure kinds of a transport error that are worth retrying.
#[derive(Clone, Copy, Debug, PartialEq, Eq, Structural)]
pub struct TransportFailure {
    /// The request timed out inside the client.
    pub timeout: bool,
    /// The connection could not be made.
    pub connect: bool,
    /// The request could not be built or sent.
    pub request: bool,
    /// The body could not be read or written.
    pub body: bool,
}

/// Whether a transport error is worth retrying.
pub open spec fn retryable_failure(failure: TransportFailure) -> bool {
    failure.timeout || failure.connect || failure.request || failure.body
}

/// Tests whether a transport error is worth retrying.
pub fn is_retryable_error(failure: &TransportFailure) -> (retryable: bool)
    ensures
        retryable == retryable_failure(*failure),
{
    failure.timeout || failure.connect || failure.request || failure.body
}

/// What one attempt came to.
#[derive(Clone, Copy, Debug, PartialEq, Eq, Structural)]
pub enum AttemptOutcome {
    /// A response arrived with this status.
    Response(u16),
    /// The client failed before a response arrived.
    Transport(TransportFailure),
    /// No response within the policy's timeout.
    TimedOut,
}

/// Where a fetch stands: the attempt under way (from 0) and the next pause.
#[derive(Clone, Copy, Debug, PartialEq, Eq, Structural)]
pub struct FetchState {
    /// Index of the attempt under way.
    pub attempt: u32,
    /// Pause before the next retry, in nanoseconds.
    pub backoff: u64,
}

/// What the caller does next.
#[derive(Clone, Copy, Debug, PartialEq, Eq, Structural)]
pub enum FetchAction {
    /// Send the request (again).
    Send,
    /// Wait this many nanoseconds, then send the request again.
    RetryAfter(u64),
    /// Read the response body as the result.
    Deliver,
    /// Give up: the service answered this non-retryable (or last) status.
    FailStatus(u16),
    /// Give up: the transport error of the last attempt is the result.
    FailTransport,
    /// Give up: the last attempt timed out.
    FailTimeout,
    /// Give up: the service's circuit is open.
    FailCircuitOpen,
}

/// Doubling of a pause, saturating at the largest representable one.
pub open spec fn doubled(backoff: u64) -> u64 {
    if backoff <= u64::MAX / 2 { (2 * backoff) as u64 } else { u64::MAX }
}

/// Whether an attempt is followed by another one.
pub open spec fn retries(policy: RequestPolicy, attempt: u32, outcome: AttemptOutcome) -> bool {
    attempt + 1 < policy.attempts && match outcome {
        AttemptOutcome::Response(status) => !success_status(status) && retryable_status(status),
        AttemptOutcome::Transport(failure) => retryable_failure(failure),
        AttemptOutcome::TimedOut => true,
    }
}

/// What follows attempt `state.attempt` when it came to `outcome`.
pub open spec fn next_action(policy: RequestPolicy, state: FetchState, outcome: AttemptOutcome) -> FetchAction {
    if retries(policy, state.attempt, outcome) {
        FetchAction::RetryAfter(state.backoff)
    } else {
        match outcome {
            AttemptOutcome::Response(status) => if success_status(status) {
                FetchAction::Deliver
            } else {
                FetchAction::FailStatus(status)
            },
            AttemptOutcome::Transport(_) => FetchAction::FailTransport,
            AttemptOutcome::TimedOut => FetchAction::FailTimeout,
        }
    }
}

/// Doubles a pause, saturating at the largest representable one.
pub fn double_backoff(backoff: u64) -> (next: u64)
    ensures
        next == doubled(backoff),
{
    if backoff <= u64::MAX / 2 { 2 * backoff } else { u64::MAX }
}

/// The state of a fetch before its first attempt.
pub open spec fn initial_state(policy: RequestPolicy) -> FetchState {
    FetchState { attempt: 0, backoff: policy.initial_backoff }
}

/// A service's failure record.
#[derive(Clone, Copy, Debug, PartialEq, Eq, Structural)]
pub struct CircuitState {
    /// Failures since the last success or reset.
    pub failures: u32,
    /// Instant until which the circuit refuses requests, if it is open.
    pub open_until: Option<u64>,
}

struct CircuitEntry {
    service: &'static str,
    state: CircuitState,
}

/// The records of a list of entries, by service name; later entries win.
spec fn entries_map(entries: Seq<CircuitEntry>) -> Map<Seq<char>, CircuitState>
    decreases entries.len(),
{
    if entries.len() == 0 {
        Map::empty()
    } else {
        entries_map(entries.drop_last()).insert(entries.last().service@, entries.last().state)
    }
}

spec fn distinct_services(entries: Seq<CircuitEntry>) -> bool {
    forall|i: int, j: int|
        0 <= i < entries.len() && 0 <= j < entries.len() && i != j ==> (#[trigger] entries[i]).service@
            != (#[trigger] entries[j]).service@
}

proof fn lemma_entries_map_lookup(entries: Seq<CircuitEntry>)
    requires
        distinct_services(entries),
    ensures
        forall|k: Seq<char>|
            entries_map(entries).contains_key(k) <==> exists|i: int|
                0 <= i < entries.len() && (#[trigger] entries[i]).service@ == k,
        forall|i: int|
            0 <= i < entries.len() ==> #[trigger] entries_map(entries)[entries[i].service@] == entries[i].state,
    decreases entries.len(),
{
    if entries.len() > 0 {
        let init = entries.drop_last();
        assert(distinct_services(init));
        lemma_entries_map_lookup(init);
        assert forall|k: Seq<char>|
            entries_map(entries).contains_key(k) <==> exists|i: int|
                0 <= i < entries.len() && (#[trigger] entries[i]).service@ == k by {
            if entries_map(entries).contains_key(k) && k != entries.last().service@ {
                let i = choose|i: int| 0 <= i < init.len() && (#[trigger] init[i]).service@ == k;
                assert(entries[i].service@ == k);
            }
            if exists|i: int| 0 <= i < entries.len() && (#[trigger] entries[i]).service@ == k {
                let i = choose|i: int| 0 <= i < entries.len() && (#[trigger] entries[i]).service@ == k;
                if i < entries.len() - 1 {
                    assert(init[i].service@ == k);
                }
            }
        }
        assert forall|i: int| 0 <= i < entries.len() implies #[trigger] entries_map(entries)[entries[i].service@]
            == entries[i].state by {
            if i < entries.len() - 1 {
                assert(init[i] == entries[i]);
                assert(entries[i].service@ != entries.last().service@);
            }
        }
    }
}

proof fn lemma_entries_map_update(entries: Seq<CircuitEntry>, i: int, state: CircuitState)
    requires
        distinct_services(entries),
        0 <= i < entries.len(),
    ensures
        entries_map(entries.update(i, CircuitEntry { service: entries[i].service, state }))
            == entries_map(entries).insert(entries[i].service@, state),
    decreases entries.len(),
{
    let updated = entries.update(i, CircuitEntry { service: entries[i].service, state });
    if i == entries.len() - 1 {
        assert(updated.drop_last() =~= entries.drop_last());
        assert(entries_map(updated) =~= entries_map(entries).insert(entries[i].service@, state));
    } else {
        let init = entries.drop_last();
        assert(distinct_services(init));
        lemma_entries_map_update(init, i, state);
        assert(updated.drop_last() =~= init.update(i, CircuitEntry { service: entries[i].service, state }));
        assert(entries[i].service@ != entries.last().service@);
        assert(entries_map(updated) =~= entries_map(entries).insert(entries[i].service@, state));
    }
}

proof fn lemma_entries_map_remove(entries: Seq<CircuitEntry>, i: int)
    requires
        distinct_services(entries),
        0 <= i < entries.len(),
    ensures
        entries_map(entries.remove(i)) == entries_map(entries).remove(entries[i].service@),
        distinct_services(entries.remove(i)),
    decreases entries.len(),
{
    let removed = entries.remove(i);
    let init = entries.drop_last();
    assert(distinct_services(init));
    lemma_entries_map_lookup(init);
    if i == entries.len() - 1 {
        assert(removed =~= init);
        assert forall|j: int| 0 <= j < init.len() implies (#[trigger] init[j]).service@ != entries[i].service@ by {
            assert(init[j] == entries[j]);
        }
        assert(!entries_map(init).contains_key(entries[i].service@));
        assert(entries_map(removed) =~= entries_map(entries).remove(entries[i].service@));
    } else {
        lemma_entries_map_remove(init, i);
        assert(removed.drop_last() =~= init.remove(i));
        assert(removed.last() == entries.last());
        assert(entries[i].service@ != entries.last().service@);
        assert(entries_map(removed) =~= entries_map(entries).remove(entries[i].service@));
    }
    assert forall|a: int, b: int|
        0 <= a < removed.len() && 0 <= b < removed.len() && a != b implies (#[trigger] removed[a]).service@
        != (#[trigger] removed[b]).service@ by {
        let ea = if a < i { a } else { a + 1 };
        let eb = if b < i { b } else { b + 1 };
        assert(removed[a] == entries[ea]);
        assert(removed[b] == entries[eb]);
    }
}

/// The failure records of every service.
pub struct CircuitBreaker {
    entries: Vec<CircuitEntry>,
}

impl View for CircuitBreaker {
    type V = Map<Seq<char>, CircuitState>;

    closed spec fn view(&self) -> Map<Seq<char>, CircuitState> {
        entries_map(self.entries@)
    }
}

/// Whether a record refuses requests at `now`.
pub open spec fn refuses(record: Option<CircuitState>, now: u64) -> bool {
    record matches Some(state) && state.open_until matches Some(until) && now < until
}

/// The record of a service, if any.
pub open spec fn record_of(records: Map<Seq<char>, CircuitState>, service: Seq<char>) -> Option<CircuitState> {
    if records.contains_key(service) { Some(records[service]) } else { None }
}

/// The records after asking, at `now`, whether `service`'s circuit is open:
/// an open circuit whose time has run out is closed, with its failures forgotten.
pub open spec fn after_check(records: Map<Seq<char>, CircuitState>, service: Seq<char>, now: u64) -> Map<Seq<char>, CircuitState> {
    if records.contains_key(service) && records[service].open_until is Some && !refuses(record_of(records, service), now) {
        records.insert(service, CircuitState { failures: 0, open_until: None })
    } else {
        records
    }
}

/// The record of a service after one more failure at `now`: the count grows
/// (saturating), and from the threshold on the circuit opens for the open duration.
pub open spec fn after_failure(record: Option<CircuitState>, now: u64) -> CircuitState {
    let before = match record {
        Some(state) => state,
        None => CircuitState { failures: 0, open_until: None },
    };
    let failures = if before.failures < u32::MAX { (before.failures + 1) as u32 } else { u32::MAX };
    if failures >= CIRCUIT_FAILURE_THRESHOLD {
        CircuitState { failures, open_until: Some((now + CIRCUIT_OPEN_DURATION) as u64) }
    } else {
        CircuitState { failures, open_until: before.open_until }
    }
}

impl CircuitBreaker {
    spec fn wf(&self) -> bool {
        distinct_services(self.entries@)
    }

    /// Creates a breaker with no records: every circuit is closed.
    pub fn new() -> (breaker: Self)
        ensures
            breaker@ == Map::<Seq<char>, CircuitState>::empty(),
            breaker.inv(),
    {
        let breaker = CircuitBreaker { entries: Vec::new() };
        assert(breaker@ =~= Map::<Seq<char>, CircuitState>::empty());
        breaker
    }

    /// The breaker's internal invariant.
    pub closed spec fn inv(&self) -> bool {
        self.wf()
    }

    fn find(&self, service: &str) -> (found: Option<usize>)
        requires
            self.wf(),
        ensures
            found is None ==> !self@.contains_key(service@),
            found matches Some(i) ==> i < self.entries.len() && self.entries@[i as int].service@ == service@,
    {
        proof {
            lemma_entries_map_lookup(self.entries@);
        }
        let mut i: usize = 0;
        while i < self.entries.len()
            invariant
                i <= self.entries.len(),
                forall|k: int| 0 <= k < i ==> (#[trigger] self.entries@[k]).service@ != service@,
            decreases self.entries.len() - i,
        {
            if same_text(self.entries[i].service, service) {
                return Some(i);
            }
            i = i + 1;
        }
        None
    }

    /// Whether `service`'s circuit refuses requests at `now`. An open circuit
    /// whose time has run out is closed again, with its failures forgotten.
    pub fn circuit_is_open(&mut self, service: &'static str, now: u64) -> (open: bool)
        requires
            old(self).inv(),
        ensures
            final(self).inv(),
            open == refuses(record_of(old(self)@, service@), now),
            final(self)@ == after_check(old(self)@, service@, now),
    {
        proof {
            lemma_entries_map_lookup(self.entries@);
        }
        match self.find(service) {
            None => false,
            Some(i) => {
                let state = self.entries[i].state;
                match state.open_until {
                    Some(until) => {
                        if now < until {
                            true
                        } else {
                            let ghost before = self.entries@;
                            let entry = CircuitEntry { service: self.entries[i].service, state: CircuitState { failures: 0, open_until: None } };
                            self.entries.set(i, entry);
                            proof {
                                lemma_entries_map_update(before, i as int, CircuitState { failures: 0, open_until: None });
                                assert(self.entries@ =~= before.update(i as int, entry));
                                assert forall|a: int, b: int|
                                    0 <= a < self.entries@.len() && 0 <= b < self.entries@.len() && a != b implies (#[trigger] self.entries@[a]).service@
                                    != (#[trigger] self.entries@[b]).service@ by {
                                    assert(self.entries@[a].service == before[a].service);
                                    assert(self.entries@[b].service == before[b].service);
                                }
                            }
                            false
                        }
                    },
                    None => false,
                }
            },
        }
    }

    /// Forgets `service`'s failures after a success.
    pub fn record_success(&mut self, service: &'static str)
        requires
            old(self).inv(),
        ensures
            final(self).inv(),
            final(self)@ == old(self)@.remove(service@),
    {
        proof {
            lemma_entries_map_lookup(self.entries@);
        }
        match self.find(service) {
            None => {
                assert(self@ =~= old(self)@.remove(service@));
            },
            Some(i) => {
                let ghost before = self.entries@;
                self.entries.remove(i);
                proof {
                    lemma_entries_map_remove(before, i as int);
                }
            },
        }
    }

    /// Counts a failure of `service` at `now`; from the threshold on, its
    /// circuit opens for the open duration.
    pub fn record_failure(&mut self, service: &'static str, now: u64)
        requires
            old(self).inv(),
            now + CIRCUIT_OPEN_DURATION <= u64::MAX,
        ensures
            final(self).inv(),
            final(self)@ == old(self)@.insert(service@, after_failure(record_of(old(self)@, service@), now)),
    {
        proof {
            lemma_entries_map_lookup(self.entries@);
        }
        match self.find(service) {
            None => {
                let failures: u32 = 1;
                let state = if failures >= CIRCUIT_FAILURE_THRESHOLD {
                    CircuitState { failures, open_until: Some(now + CIRCUIT_OPEN_DURATION) }
                } else {
                    CircuitState { failures, open_until: None }
                };
                let ghost before = self.entries@;
                self.entries.push(CircuitEntry { service, state });
                proof {
                    assert(self.entries@.drop_last() =~= before);
                    assert forall|a: int, b: int|
                        0 <= a < self.entries@.len() && 0 <= b < self.entries@.len() && a != b implies (#[trigger] self.entries@[a]).service@
                        != (#[trigger] self.entries@[b]).service@ by {
                        if a < before.len() {
                            assert(self.entries@[a] == before[a]);
                        }
                        if b < before.len() {
                            assert(self.entries@[b] == before[b]);
                        }
                    }
                }
            },
            Some(i) => {
                let before_state = self.entries[i].state;
                let failures = before_state.failures.saturating_add(1);
                let state = if failures >= CIRCUIT_FAILURE_THRESHOLD {
                    CircuitState { failures, open_until: Some(now + CIRCUIT_OPEN_DURATION) }
                } else {
                    CircuitState { failures, open_until: before_state.open_until }
                };
                let ghost before = self.entries@;
                let entry = CircuitEntry { service: self.entries[i].service, state };
                self.entries.set(i, entry);
                proof {
                    lemma_entries_map_update(before, i as int, state);
                    assert(self.entries@ =~= before.update(i as int, entry));
                    assert forall|a: int, b: int|
                        0 <= a < self.entries@.len() && 0 <= b < self.entries@.len() && a != b implies (#[trigger] self.entries@[a]).service@
                        != (#[trigger] self.entries@[b]).service@ by {
                        assert(self.entries@[a].service == before[a].service);
                        assert(self.entries@[b].service == before[b].service);
                    }
                }
            },
        }
    }
}

} // verus!

verus! {

/// Starts fetching from `service` at `now`: refused at once when its circuit
/// is open, given up when the policy allows no attempt, and sent otherwise.
pub fn start_fetch(breaker: &mut CircuitBreaker, service: &'static str, policy: &RequestPolicy, now: u64) -> (started: (FetchAction, FetchState))
    requires
        old(breaker).inv(),
    ensures
        final(breaker).inv(),
        final(breaker)@ == after_check(old(breaker)@, service@, now),
        started.1 == initial_state(*policy),
        started.0 == (if refuses(record_of(old(breaker)@, service@), now) {
            FetchAction::FailCircuitOpen
        } else if policy.attempts == 0 {
            FetchAction::FailTimeout
        } else {
            FetchAction::Send
        }),
{
    let state = FetchState { attempt: 0, backoff: policy.initial_backoff };
    if breaker.circuit_is_open(service, now) {
        (FetchAction::FailCircuitOpen, state)
    } else if policy.attempts == 0 {
        (FetchAction::FailTimeout, state)
    } else {
        (FetchAction::Send, state)
    }
}

/// The state after an attempt that came to `outcome`.
pub open spec fn next_state(policy: RequestPolicy, state: FetchState, outcome: AttemptOutcome) -> FetchState {
    if retries(policy, state.attempt, outcome) {
        FetchState { attempt: (state.attempt + 1) as u32, backoff: doubled(state.backoff) }
    } else {
        state
    }
}

/// The breaker's records after an attempt that came to `outcome` at `now`:
/// a delivered response clears the service's failures, anything else counts one.
pub open spec fn recorded(
    records: Map<Seq<char>, CircuitState>,
    service: Seq<char>,
    action: FetchAction,
    now: u64,
) -> Map<Seq<char>, CircuitState> {
    if action is Deliver {
        records.remove(service)
    } else {
        records.insert(service, after_failure(record_of(records, service), now))
    }
}

/// Decides what follows attempt `state.attempt` of a fetch from `service`,
/// which came to `outcome` at `now`, and records its success or failure.
pub fn on_outcome(
    breaker: &mut CircuitBreaker,
    service: &'static str,
    policy: &RequestPolicy,
    state: FetchState,
    outcome: AttemptOutcome,
    now: u64,
) -> (step: (FetchAction, FetchState))
    requires
        old(breaker).inv(),
        state.attempt < policy.attempts,
        now + CIRCUIT_OPEN_DURATION <= u64::MAX,
    ensures
        final(breaker).inv(),
        step.0 == next_action(*policy, state, outcome),
        step.1 == next_state(*policy, state, outcome),
        final(breaker)@ == recorded(old(breaker)@, service@, step.0, now),
{
    let retry = state.attempt + 1 < policy.attempts && match outcome {
        AttemptOutcome::Response(status) => !(200 <= status && status <= 299) && is_retryable_status(status),
        AttemptOutcome::Transport(failure) => is_retryable_error(&failure),
        AttemptOutcome::TimedOut => true,
    };
    if retry {
        breaker.record_failure(service, now);
        let next = FetchState { attempt: state.attempt + 1, backoff: double_backoff(state.backoff) };
        (FetchAction::RetryAfter(state.backoff), next)
    } else {
        let action = match outcome {
            AttemptOutcome::Response(status) => if 200 <= status && status <= 299 {
                FetchAction::Deliver
            } else {
                FetchAction::FailStatus(status)
            },
            AttemptOutcome::Transport(_) => FetchAction::FailTransport,
            AttemptOutcome::TimedOut => FetchAction::FailTimeout,
        };
        match action {
            FetchAction::Deliver => breaker.record_success(service),
            _ => breaker.record_failure(service, now),
        }
        (action, state)
    }
}

/// The error a fetch that gave up with `action` reports.
pub open spec fn failure_of(service: &'static str, action: FetchAction) -> Option<SerisError> {
    match action {
        FetchAction::FailStatus(status) => Some(SerisError::HttpStatus { service, status }),
        FetchAction::FailTimeout => Some(SerisError::Timeout { service }),
        FetchAction::FailCircuitOpen => Some(SerisError::CircuitOpen { service }),
        _ => None,
    }
}

/// The library error for a fetch that gave up with `action`; transport
/// failures carry the client's own error, so they have none here.
pub fn fetch_error(service: &'static str, action: FetchAction) -> (error: Option<SerisError>)
    ensures
        error == failure_of(service, action),
{
    match action {
        FetchAction::FailStatus(status) => Some(SerisError::HttpStatus { service, status }),
        FetchAction::FailTimeout => Some(SerisError::Timeout { service }),
        FetchAction::FailCircuitOpen => Some(SerisError::CircuitOpen { service }),
        _ => None,
    }
}

/// The pause before retry number `k` (from 0): the initial backoff doubled `k` times.
pub open spec fn backoff_after(initial: u64, k: nat) -> u64
    decreases k,
{
    if k == 0 { initial } else { doubled(backoff_after(initial, (k - 1) as nat)) }
}

/// A fetch never sends more requests than its policy allows: a retry is only
/// decided while another attempt remains, and it moves to that attempt.
pub proof fn lemma_retries_stay_within_attempts(policy: RequestPolicy, state: FetchState, outcome: AttemptOutcome)
    requires
        state.attempt < policy.attempts,
    ensures
        next_action(policy, state, outcome) is RetryAfter ==> next_state(policy, state, outcome).attempt
            < policy.attempts && next_state(policy, state, outcome).attempt == state.attempt + 1,
        !(next_action(policy, state, outcome) is RetryAfter) ==> next_state(policy, state, outcome) == state,
{
}

/// Pauses grow geometrically: after `k` retries from the initial state, the
/// next pause is the initial backoff doubled `k` times.
pub proof fn lemma_backoff_doubles(policy: RequestPolicy, state: FetchState, outcome: AttemptOutcome, k: nat)
    requires
        state.backoff == backoff_after(policy.initial_backoff, k),
        next_action(policy, state, outcome) is RetryAfter,
    ensures
        next_state(policy, state, outcome).backoff == backoff_after(policy.initial_backoff, k + 1),
{
}

/// A successful response is delivered, whatever attempt it answers, and
/// clears the service's failures.
pub proof fn lemma_success_is_delivered(
    policy: RequestPolicy,
    state: FetchState,
    status: u16,
    records: Map<Seq<char>, CircuitState>,
    service: Seq<char>,
    now: u64,
)
    requires
        success_status(status),
    ensures
        next_action(policy, state, AttemptOutcome::Response(status)) == FetchAction::Deliver,
        !recorded(records, service, FetchAction::Deliver, now).contains_key(service),
{
}

/// Three failures in a row open a service's circuit: from the third on, every
/// request is refused for the open duration.
pub proof fn lemma_threshold_failures_open_circuit(service: Seq<char>, t1: u64, t2: u64, t3: u64, at: u64)
    requires
        t3 + CIRCUIT_OPEN_DURATION <= u64::MAX,
        t3 <= at < t3 + CIRCUIT_OPEN_DURATION,
    ensures
        ({
            let r1 = after_failure(None, t1);
            let r2 = after_failure(Some(r1), t2);
            let r3 = after_failure(Some(r2), t3);
            &&& !refuses(Some(r1), t1)
            &&& !refuses(Some(r2), t2)
            &&& refuses(Some(r3), at)
        }),
{
}

/// An open circuit closes once its time has run out, and its failures are forgotten.
pub proof fn lemma_open_circuit_closes_after_duration(
    records: Map<Seq<char>, CircuitState>,
    service: Seq<char>,
    now: u64,
)
    requires
        records.contains_key(service),
        records[service].open_until matches Some(until) && until <= now,
    ensures
        !refuses(record_of(records, service), now),
        after_check(records, service, now)[service] == (CircuitState { failures: 0, open_until: None }),
{
}

/// A transport error that is a client timeout, a failed connection, a request
/// that could not be sent, or a body that could not be read is retried while
/// another attempt remains; any other transport error, or one on the last
/// attempt, gives the fetch up at once.
pub proof fn lemma_transient_transport_errors_are_retried(
    policy: RequestPolicy,
    state: FetchState,
    failure: TransportFailure,
)
    ensures
        (failure.timeout || failure.connect || failure.request || failure.body) && state.attempt + 1
            < policy.attempts ==> next_action(policy, state, AttemptOutcome::Transport(failure))
            == FetchAction::RetryAfter(state.backoff) && next_state(
            policy,
            state,
            AttemptOutcome::Transport(failure),
        ).attempt == state.attempt + 1,
        !(failure.timeout || failure.connect || failure.request || failure.body) || state.attempt + 1
            >= policy.attempts ==> next_action(policy, state, AttemptOutcome::Transport(failure))
            == FetchAction::FailTransport && next_state(policy, state, AttemptOutcome::Transport(failure))
            == state,
{
}

/// Only a delivered response leaves a fetch without a failure on record:
/// every other attempt, a retried one included, counts one more failure for
/// its service (saturating) and touches no other service.
pub proof fn lemma_every_failed_attempt_counts(
    records: Map<Seq<char>, CircuitState>,
    service: Seq<char>,
    action: FetchAction,
    now: u64,
)
    requires
        !(action is Deliver),
    ensures
        ({
            let before = if records.contains_key(service) { records[service].failures } else { 0 };
            let after = recorded(records, service, action, now);
            &&& after.contains_key(service)
            &&& after[service].failures == (if before < u32::MAX { before + 1 } else { before as int })
            &&& forall|other: Seq<char>| other != service ==> (#[trigger] after.contains_key(other)
                == records.contains_key(other) && (records.contains_key(other) ==> after[other]
                == records[other]))
        }),
{
}

/// Three attempts in a row that bring no successful response, whether they
/// are the retries of one fetch or not, open the service's circuit: for the
/// open duration after the third, a new fetch is refused at once.
pub proof fn lemma_three_failed_attempts_open_circuit(
    policy: RequestPolicy,
    records: Map<Seq<char>, CircuitState>,
    service: Seq<char>,
    outcomes: Seq<AttemptOutcome>,
    times: Seq<u64>,
    at: u64,
)
    requires
        !records.contains_key(service),
        outcomes.len() == 3,
        times.len() == 3,
        forall|i: int| 0 <= i < 3 ==> !(#[trigger] outcomes[i] matches AttemptOutcome::Response(status) && success_status(status)),
        forall|i: int| 0 <= i < 3 ==> #[trigger] times[i] + CIRCUIT_OPEN_DURATION <= u64::MAX,
        times[2] <= at < times[2] + CIRCUIT_OPEN_DURATION,
    ensures
        ({
            let s1 = initial_state(policy);
            let s2 = next_state(policy, s1, outcomes[0]);
            let s3 = next_state(policy, s2, outcomes[1]);
            let r1 = recorded(records, service, next_action(policy, s1, outcomes[0]), times[0]);
            let r2 = recorded(r1, service, next_action(policy, s2, outcomes[1]), times[1]);
            let r3 = recorded(r2, service, next_action(policy, s3, outcomes[2]), times[2]);
            &&& r3[service].failures == 3
            &&& refuses(record_of(r3, service), at)
        }),
{
    let s1 = initial_state(policy);
    let s2 = next_state(policy, s1, outcomes[0]);
    let s3 = next_state(policy, s2, outcomes[1]);
    let o0 = outcomes[0];
    let o1 = outcomes[1];
    let o2 = outcomes[2];
    assert(!(next_action(policy, s1, o0) is Deliver));
    assert(!(next_action(policy, s2, o1) is Deliver));
    assert(!(next_action(policy, s3, o2) is Deliver));
}

/// How a response is handled: a 2xx status is delivered; 429 and every 5xx
/// status are retried while another attempt remains; any other status, or a
/// retryable one on the last attempt, gives the fetch up with that status.
pub proof fn lemma_response_statuses_are_handled(policy: RequestPolicy, state: FetchState, status: u16)
    ensures
        200 <= status <= 299 ==> next_action(policy, state, AttemptOutcome::Response(status))
            == FetchAction::Deliver,
        (status == 429 || 500 <= status <= 599) && state.attempt + 1 < policy.attempts ==> next_action(
            policy,
            state,
            AttemptOutcome::Response(status),
        ) == FetchAction::RetryAfter(state.backoff),
        !(200 <= status <= 299) && (!(status == 429 || 500 <= status <= 599) || state.attempt + 1
            >= policy.attempts) ==> next_action(policy, state, AttemptOutcome::Response(status))
            == FetchAction::FailStatus(status),
        next_action(policy, state, AttemptOutcome::TimedOut) == (if state.attempt + 1 < policy.attempts {
            FetchAction::RetryAfter(state.backoff)
        } else {
            FetchAction::FailTimeout
        }),
{
}

} // verus!
