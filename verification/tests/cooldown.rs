use seris::cooldown::{cooldown_message, CooldownTracker};

const SECOND: u64 = 1_000_000_000;

#[test]
fn allows_first_request() {
    let mut tracker = CooldownTracker::new();

    assert_eq!(tracker.try_acquire("ping", 1, 5 * SECOND, 100 * SECOND), None);
}

#[test]
fn blocks_repeat_request_until_expired() {
    let mut tracker = CooldownTracker::new();
    let now = 100 * SECOND;
    let user_id = 1;

    assert_eq!(tracker.try_acquire("ping", user_id, 5 * SECOND, now), None);

    let remaining = tracker
        .try_acquire("ping", user_id, 5 * SECOND, now + 2 * SECOND)
        .expect("cooldown");

    assert!(remaining <= 3 * SECOND);
}

#[test]
fn different_commands_have_independent_cooldowns() {
    let mut tracker = CooldownTracker::new();
    let now = 100 * SECOND;
    let user_id = 1;

    assert_eq!(tracker.try_acquire("ping", user_id, 5 * SECOND, now), None);
    assert_eq!(tracker.try_acquire("uptime", user_id, 5 * SECOND, now), None);
}

#[test]
fn cooldown_wait_is_exact_and_expires() {
    let mut tracker = CooldownTracker::new();
    assert_eq!(tracker.try_acquire("ping", 7, 5 * SECOND, 0), None);
    assert_eq!(tracker.try_acquire("ping", 7, 5 * SECOND, 2 * SECOND), Some(3 * SECOND));
    assert_eq!(tracker.try_acquire("ping", 8, 5 * SECOND, 2 * SECOND), None);
    assert_eq!(tracker.try_acquire("ping", 7, 5 * SECOND, 5 * SECOND), None);
    assert_eq!(tracker.try_acquire("ping", 7, 5 * SECOND, 6 * SECOND), Some(4 * SECOND));
}

#[test]
fn cooldown_keys_compare_by_text() {
    let mut tracker = CooldownTracker::new();
    let first: &'static str = "ping";
    let second: &'static str = Box::leak(String::from("ping").into_boxed_str());
    assert_eq!(tracker.try_acquire(first, 1, 5 * SECOND, 0), None);
    assert_eq!(tracker.try_acquire(second, 1, 5 * SECOND, SECOND), Some(4 * SECOND));
}

#[test]
fn cooldown_message_mentions_the_wait() {
    assert_eq!(
        cooldown_message("ping", 61 * SECOND + 5),
        "Aguarde 1m 01s antes de usar `/ping` novamente."
    );
}
