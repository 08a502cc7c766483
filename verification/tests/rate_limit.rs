use std::cell::Cell;
use std::rc::Rc;

use bakopa::rate_limit::{Clock, RateLimiter, TimeSpan, Timestamp};

#[derive(Clone)]
struct MockClock {
    now: Rc<Cell<u64>>,
}

impl MockClock {
    fn start_at(nanos: u64) -> Self {
        Self {
            now: Rc::new(Cell::new(nanos)),
        }
    }

    fn advance(&self, span: TimeSpan) {
        let nanos = u64::try_from(span.as_nanos()).expect("span fits");
        self.now.set(self.now.get() + nanos);
    }
}

impl Clock for MockClock {
    fn now(&self) -> Timestamp {
        Timestamp::from_nanos(self.now.get())
    }
}

fn new_limiter(limit: u32) -> (RateLimiter<MockClock>, MockClock) {
    let clock = MockClock::start_at(1_000_000_000);
    let limiter = RateLimiter::new(clock.clone(), limit, TimeSpan::from_secs(1));
    (limiter, clock)
}

#[test]
fn allows_twenty_then_limits_twenty_first() {
    let (mut limiter, _clock) = new_limiter(20);

    for _ in 0..20 {
        let decision = limiter.check();
        assert!(decision.allowed, "first 20 should be allowed");
        assert!(!decision.should_drop);
    }

    let decision = limiter.check();
    assert!(!decision.allowed, "21st should be rate limited");
    assert!(
        decision.should_drop,
        "rate-limited messages should be dropped"
    );
}

#[test]
fn resets_after_one_second_window() {
    let (mut limiter, clock) = new_limiter(20);

    for _ in 0..21 {
        let _ = limiter.check();
    }

    clock.advance(TimeSpan::from_secs(1));

    for _ in 0..20 {
        let decision = limiter.check();
        assert!(decision.allowed, "after 1s, counter should reset");
    }
}

#[test]
fn counts_are_isolated_per_instance() {
    let clock = MockClock::start_at(1_000_000_000);
    let mut limiter_a = RateLimiter::new(clock.clone(), 20, TimeSpan::from_secs(1));
    let mut limiter_b = RateLimiter::new(clock.clone(), 20, TimeSpan::from_secs(1));

    for _ in 0..20 {
        let _ = limiter_a.check();
    }

    let decision_a = limiter_a.check();
    assert!(!decision_a.allowed, "limiter A hits its own limit");

    let decision_b = limiter_b.check();
    assert!(
        decision_b.allowed,
        "limiter B should not be affected by limiter A"
    );
}

#[test]
fn rejected_decision_sets_drop_flag() {
    let (mut limiter, _clock) = new_limiter(1);

    let _ = limiter.check();
    let decision = limiter.check();

    assert!(!decision.allowed);
    assert!(decision.should_drop);
}

#[test]
fn cooldown_refuses_until_one_window_has_passed() {
    let (mut limiter, clock) = new_limiter(2);

    assert!(limiter.check().allowed);
    assert!(limiter.check().allowed);
    assert!(!limiter.check().allowed);

    clock.advance(TimeSpan::from_millis(999));
    let during = limiter.check();
    assert!(!during.allowed);
    assert!(during.should_drop);

    clock.advance(TimeSpan::from_millis(1));
    assert!(limiter.check().allowed);
}

#[test]
fn old_messages_leave_the_window() {
    let (mut limiter, clock) = new_limiter(2);

    assert!(limiter.check().allowed);
    clock.advance(TimeSpan::from_millis(600));
    assert!(limiter.check().allowed);
    clock.advance(TimeSpan::from_millis(500));
    let third = limiter.check();
    assert!(third.allowed, "the first message is older than the window");
}

#[test]
fn message_exactly_one_window_old_still_counts() {
    let (mut limiter, clock) = new_limiter(1);

    assert!(limiter.check().allowed);
    clock.advance(TimeSpan::from_secs(1));
    assert!(!limiter.check().allowed);
}

#[test]
fn zero_limit_refuses_everything() {
    let (mut limiter, _clock) = new_limiter(0);

    let decision = limiter.check();
    assert!(!decision.allowed);
    assert!(decision.should_drop);
}

#[test]
fn check_at_decides_on_the_given_time() {
    let clock = MockClock::start_at(0);
    let mut limiter = RateLimiter::new(clock, 1, TimeSpan::from_nanos(10));

    assert!(limiter.check_at(Timestamp::from_nanos(100)).allowed);
    assert!(!limiter.check_at(Timestamp::from_nanos(105)).allowed);
    assert!(!limiter.check_at(Timestamp::from_nanos(114)).allowed);
    assert!(limiter.check_at(Timestamp::from_nanos(115)).allowed);
}

#[test]
fn spans_convert_between_units() {
    assert_eq!(TimeSpan::from_secs(2).as_nanos(), 2_000_000_000);
    assert_eq!(TimeSpan::from_millis(3).as_nanos(), 3_000_000);
    assert_eq!(Timestamp::from_nanos(42).as_nanos(), 42);
}

#[test]
fn zero_window_cooldown_ends_at_once() {
    let clock = MockClock::start_at(0);
    let mut limiter = RateLimiter::new(clock, 2, TimeSpan::from_nanos(0));

    assert!(limiter.check_at(Timestamp::from_nanos(5)).allowed);
    assert!(limiter.check_at(Timestamp::from_nanos(5)).allowed);
    assert!(!limiter.check_at(Timestamp::from_nanos(5)).allowed);
    assert!(limiter.check_at(Timestamp::from_nanos(5)).allowed);
}

#[test]
fn window_counts_only_recent_allowed_messages() {
    let clock = MockClock::start_at(0);
    let mut limiter = RateLimiter::new(clock, 2, TimeSpan::from_nanos(10));

    assert!(limiter.check_at(Timestamp::from_nanos(0)).allowed);
    assert!(limiter.check_at(Timestamp::from_nanos(5)).allowed);
    // The message at 0 is more than one window old at 11: one recent message.
    assert!(limiter.check_at(Timestamp::from_nanos(11)).allowed);
    // At 12, the messages at 5 and 11 are both recent: the limit is reached.
    let refused = limiter.check_at(Timestamp::from_nanos(12));
    assert!(!refused.allowed);
    assert!(refused.should_drop);
    // The cooldown lasts one window from the refusal.
    assert!(!limiter.check_at(Timestamp::from_nanos(21)).allowed);
    assert!(limiter.check_at(Timestamp::from_nanos(22)).allowed);
}
