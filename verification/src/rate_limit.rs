//! Per-connection rate limiting of signaling messages: at most a fixed number
//! of messages per sliding window, then a cooldown of one window.
use vstd::prelude::*;
use std::collections::VecDeque;

verus! {

broadcast use vstd::std_specs::vecdeque::group_vec_dequeue_axioms;

/// A point in time, in nanoseconds since an arbitrary origin.
#[derive(Debug, Clone, Copy, PartialEq, Eq, Structural)]
pub struct Timestamp {
    nanos: u64,
}

/// A length of time, in nanoseconds.
#[derive(Debug, Clone, Copy, PartialEq, Eq, Structural)]
pub struct TimeSpan {
    nanos: u128,
}

impl View for Timestamp {
    type V = u64;

    closed spec fn view(&self) -> u64 {
        self.nanos
    }
}

impl View for TimeSpan {
    type V = u128;

    closed spec fn view(&self) -> u128 {
        self.nanos
    }
}

impl Timestamp {
    /// The point `nanos` nanoseconds after the origin.
    pub fn from_nanos(nanos: u64) -> (r: Self)
        ensures
            r@ == nanos,
    {
        Timestamp { nanos }
    }

    /// Nanoseconds since the origin.
    pub fn as_nanos(&self) -> (r: u64)
        ensures
            r == self@,
    {
        self.nanos
    }
}

/// Longest span, that of `std::time::Duration::MAX`.
pub const MAX_SPAN_NANOS: u128 = 18_446_744_073_709_551_615_999_999_999;

impl TimeSpan {
    #[verifier::type_invariant]
    spec fn within_range(self) -> bool {
        self.nanos <= MAX_SPAN_NANOS
    }

    /// A span of `nanos` nanoseconds.
    pub fn from_nanos(nanos: u128) -> (r: Self)
        requires
            nanos <= MAX_SPAN_NANOS,
        ensures
            r@ == nanos,
    {
        TimeSpan { nanos }
    }

    /// A span of `millis` milliseconds.
    pub fn from_millis(millis: u64) -> (r: Self)
        ensures
            r@ == millis * 1_000_000,
    {
        TimeSpan { nanos: millis as u128 * 1_000_000 }
    }

    /// A span of `secs` seconds.
    pub fn from_secs(secs: u64) -> (r: Self)
        ensures
            r@ == secs * 1_000_000_000,
    {
        TimeSpan { nanos: secs as u128 * 1_000_000_000 }
    }

    /// Length in nanoseconds.
    pub fn as_nanos(&self) -> (r: u128)
        ensures
            r == self@,
            r <= MAX_SPAN_NANOS,
    {
        proof {
            use_type_invariant(self);
        }
        self.nanos
    }
}

/// Source of the current time, so that tests can drive it.
///
/// A clock says, by a relation, which times it can give; a clock that does
/// not say can give any.
pub trait Clock: Clone + Sized {
    /// Whether `clock` can answer `t` when asked the time.
    open spec fn gave(clock: Self, t: Timestamp) -> bool {
        true
    }

    fn now(&self) -> (r: Timestamp)
        ensures
            Self::gave(*self, r),
    ;
}

/// Verdict on one message.
#[derive(Debug, Clone, Copy, PartialEq, Eq, Structural)]
pub struct RateLimitDecision {
    pub allowed: bool,
    /// When true, the handler must drop this message.
    pub should_drop: bool,
}

/// Time from `earlier` to `now`, zero when `earlier` is later than `now`.
pub open spec fn elapsed(now: u64, earlier: u64) -> int {
    if now >= earlier {
        now - earlier
    } else {
        0
    }
}

/// The timestamps left after dropping, from the front, those older than one
/// window.
pub open spec fn prune(ts: Seq<u64>, now: u64, window: u128) -> Seq<u64>
    decreases ts.len(),
{
    if ts.len() > 0 && elapsed(now, ts[0]) > window {
        prune(ts.drop_first(), now, window)
    } else {
        ts
    }
}

/// State of a limiter: the recorded timestamps and the end of the cooldown.
pub struct LimiterState {
    pub timestamps: Seq<u64>,
    pub cooldown_until: Option<u128>,
}

/// One check at time `now`: the state afterwards and whether the message is
/// allowed.
pub open spec fn check_spec(s: LimiterState, now: u64, limit: u32, window: u128) -> (
    LimiterState,
    bool,
) {
    if s.cooldown_until matches Some(until) && now < until {
        (s, false)
    } else {
        let base = if s.cooldown_until is Some {
            Seq::<u64>::empty()
        } else {
            s.timestamps
        };
        let kept = prune(base, now, window);
        if kept.len() >= limit {
            (LimiterState { timestamps: kept, cooldown_until: Some((now + window) as u128) }, false)
        } else {
            (LimiterState { timestamps: kept.push(now), cooldown_until: None }, true)
        }
    }
}

/// Pruning keeps a suffix of the timestamps.
pub proof fn lemma_prune_len(ts: Seq<u64>, now: u64, window: u128)
    ensures
        prune(ts, now, window).len() <= ts.len(),
    decreases ts.len(),
{
    if ts.len() > 0 && elapsed(now, ts[0]) > window {
        lemma_prune_len(ts.drop_first(), now, window);
    }
}

/// The counting part of a limiter: at most `limit_per_window` messages per
/// sliding `window`, then a cooldown of one window. It is told the time of
/// each message.
pub struct SlidingWindow {
    limit_per_window: u32,
    window: u128,
    timestamps: VecDeque<u64>,
    cooldown_until: Option<u128>,
}

impl View for SlidingWindow {
    type V = LimiterState;

    closed spec fn view(&self) -> LimiterState {
        LimiterState { timestamps: self.timestamps@, cooldown_until: self.cooldown_until }
    }
}

impl SlidingWindow {
    #[verifier::type_invariant]
    spec fn bounded(self) -> bool {
        &&& self.timestamps@.len() <= self.limit_per_window
        &&& self.window <= MAX_SPAN_NANOS
    }

    /// Messages allowed per window.
    pub closed spec fn limit(&self) -> u32 {
        self.limit_per_window
    }

    /// Length of the window in nanoseconds.
    pub closed spec fn window(&self) -> u128 {
        self.window
    }

    /// A counter with no history.
    pub fn new(limit_per_window: u32, window: TimeSpan) -> (r: Self)
        ensures
            r.limit() == limit_per_window,
            r.window() == window@,
            r@ == fresh_state(),
    {
        SlidingWindow {
            limit_per_window,
            window: window.as_nanos(),
            timestamps: VecDeque::new(),
            cooldown_until: None,
        }
    }

    /// Decides on one message received at `now`.
    pub fn check_at(&mut self, now: Timestamp) -> (r: RateLimitDecision)
        ensures
            final(self).limit() == old(self).limit(),
            final(self).window() == old(self).window(),
            (final(self)@, r.allowed) == check_spec(
                old(self)@,
                now@,
                old(self).limit(),
                old(self).window(),
            ),
            r.should_drop == !r.allowed,
    {
        proof {
            use_type_invariant(&*self);
        }
        let now_nanos = now.as_nanos();
        let limit = self.limit_per_window;
        let window = self.window;
        let mut timestamps = VecDeque::new();
        std::mem::swap(&mut timestamps, &mut self.timestamps);
        let mut cooldown_until = self.cooldown_until;
        if let Some(until) = cooldown_until {
            if (now_nanos as u128) < until {
                self.timestamps = timestamps;
                return RateLimitDecision { allowed: false, should_drop: true };
            } else {
                cooldown_until = None;
                timestamps.clear();
            }
        }
        let ghost base = timestamps@;
        loop
            invariant
                prune(timestamps@, now_nanos, window) == prune(base, now_nanos, window),
                timestamps@.len() <= base.len(),
            ensures
                timestamps@ == prune(base, now_nanos, window),
            decreases timestamps@.len(),
        {
            if timestamps.len() == 0 {
                break;
            }
            let front = timestamps[0];
            let age: u64 = if now_nanos >= front {
                now_nanos - front
            } else {
                0
            };
            if (age as u128) > window {
                let ghost before = timestamps@;
                timestamps.pop_front();
                assert(timestamps@ =~= before.drop_first());
            } else {
                break;
            }
        }
        proof {
            lemma_prune_len(base, now_nanos, window);
        }
        if timestamps.len() as u64 >= limit as u64 {
            self.cooldown_until = Some(now_nanos as u128 + window);
            self.timestamps = timestamps;
            return RateLimitDecision { allowed: false, should_drop: true };
        }
        timestamps.push_back(now_nanos);
        self.cooldown_until = None;
        self.timestamps = timestamps;
        RateLimitDecision { allowed: true, should_drop: false }
    }
}

/// Simple per-connection limiter: `limit_per_window` messages per `window`,
/// timed by its clock.
pub struct RateLimiter<C: Clock> {
    clock: C,
    counter: SlidingWindow,
}

impl<C: Clock> View for RateLimiter<C> {
    type V = LimiterState;

    closed spec fn view(&self) -> LimiterState {
        self.counter@
    }
}

impl<C: Clock> RateLimiter<C> {
    /// Messages allowed per window.
    pub closed spec fn limit(&self) -> u32 {
        self.counter.limit()
    }

    /// Length of the window in nanoseconds.
    pub closed spec fn window(&self) -> u128 {
        self.counter.window()
    }

    /// The clock the limiter reads.
    pub closed spec fn clock(&self) -> C {
        self.clock
    }

    /// A limiter with no history.
    pub fn new(clock: C, limit_per_window: u32, window: TimeSpan) -> (r: Self)
        ensures
            r.limit() == limit_per_window,
            r.window() == window@,
            r.clock() == clock,
            r@ == fresh_state(),
    {
        RateLimiter { clock, counter: SlidingWindow::new(limit_per_window, window) }
    }

    /// Decides on one message received at `now`.
    pub fn check_at(&mut self, now: Timestamp) -> (r: RateLimitDecision)
        ensures
            final(self).limit() == old(self).limit(),
            final(self).window() == old(self).window(),
            final(self).clock() == old(self).clock(),
            (final(self)@, r.allowed) == check_spec(
                old(self)@,
                now@,
                old(self).limit(),
                old(self).window(),
            ),
            r.should_drop == !r.allowed,
    {
        self.counter.check_at(now)
    }

    /// Decides on one message received now, by the limiter's clock.
    pub fn check(&mut self) -> (r: RateLimitDecision)
        ensures
            final(self).limit() == old(self).limit(),
            final(self).window() == old(self).window(),
            final(self).clock() == old(self).clock(),
            exists|now: Timestamp|
                #[trigger] C::gave(old(self).clock(), now) && check_spec(
                    old(self)@,
                    now@,
                    old(self).limit(),
                    old(self).window(),
                ) == (final(self)@, r.allowed),
            r.should_drop == !r.allowed,
    {
        let now = self.clock.now();
        let r = self.counter.check_at(now);
        assert(C::gave(old(self).clock(), now) && check_spec(
            old(self)@,
            now@,
            old(self).limit(),
            old(self).window(),
        ) == (self@, r.allowed));
        r
    }
}

/// Law: while a cooldown lasts, every message is refused and nothing
/// changes.
pub proof fn lemma_cooldown_refuses(s: LimiterState, now: u64, limit: u32, window: u128)
    requires
        s.cooldown_until matches Some(until) && now < until,
    ensures
        check_spec(s, now, limit, window) == (s, false),
{
}

/// Law: a refusal for reaching the limit starts a cooldown of one window
/// from the refused message.
pub proof fn lemma_refusal_starts_cooldown(s: LimiterState, now: u64, limit: u32, window: u128)
    requires
        s.cooldown_until is None,
        !check_spec(s, now, limit, window).1,
    ensures
        check_spec(s, now, limit, window).0.cooldown_until == Some((now + window) as u128),
{
}

/// Law: a limiter that has recorded fewer than `limit` messages in the last
/// window, and is not cooling down, allows the next one.
pub proof fn lemma_allows_below_limit(s: LimiterState, now: u64, limit: u32, window: u128)
    requires
        s.cooldown_until is None,
        s.timestamps.len() < limit,
    ensures
        check_spec(s, now, limit, window).1,
{
    lemma_prune_len(s.timestamps, now, window);
}

/// `k` checks in a row, all at `now`: the state afterwards and how many
/// were allowed.
pub open spec fn burst(s: LimiterState, now: u64, limit: u32, window: u128, k: nat) -> (
    LimiterState,
    nat,
)
    decreases k,
{
    if k == 0 {
        (s, 0)
    } else {
        let (before, allowed) = burst(s, now, limit, window, (k - 1) as nat);
        let (after, ok) = check_spec(before, now, limit, window);
        (after, allowed + if ok {
            1nat
        } else {
            0nat
        })
    }
}

/// A limiter with no history.
pub open spec fn fresh_state() -> LimiterState {
    LimiterState { timestamps: Seq::empty(), cooldown_until: None }
}

/// Law: a burst of messages at one instant on a fresh limiter gets exactly
/// `limit` of them through (all of them when there are fewer); every later
/// one in the burst is refused while the cooldown lasts. A zero window has
/// a cooldown that ends at once, so there the law covers the burst up to the
/// first refusal.
pub proof fn lemma_burst_allows_limit(now: u64, limit: u32, window: u128, k: nat)
    requires
        window <= MAX_SPAN_NANOS,
        window > 0 || k <= limit + 1,
    ensures
        burst(fresh_state(), now, limit, window, k).1 == if k <= limit {
            k
        } else {
            limit as nat
        },
        k <= limit ==> burst(fresh_state(), now, limit, window, k).0 == (LimiterState {
            timestamps: Seq::new(k, |i: int| now),
            cooldown_until: None,
        }),
        k > limit ==> burst(fresh_state(), now, limit, window, k).0.cooldown_until == Some(
            (now + window) as u128,
        ),
    decreases k,
{
    if k == 0 {
        assert(Seq::new(0, |i: int| now) =~= Seq::<u64>::empty());
    } else {
        lemma_burst_allows_limit(now, limit, window, (k - 1) as nat);
        let before = burst(fresh_state(), now, limit, window, (k - 1) as nat).0;
        if k - 1 <= limit {
            let ts = Seq::new((k - 1) as nat, |i: int| now);
            assert(prune(ts, now, window) == ts);
            if k <= limit {
                assert(ts.push(now) =~= Seq::new(k, |i: int| now));
            }
        }
    }
}

/// Law: once the cooldown is over, the history is forgotten: the next
/// message is allowed (for a positive limit) and is the only one recorded.
pub proof fn lemma_cooldown_end_resets(s: LimiterState, now: u64, limit: u32, window: u128)
    requires
        s.cooldown_until matches Some(until) && now >= until,
        limit > 0,
    ensures
        check_spec(s, now, limit, window) == (
            LimiterState { timestamps: seq![now], cooldown_until: None },
            true,
        ),
{
    assert(prune(Seq::<u64>::empty(), now, window) == Seq::<u64>::empty());
    assert(Seq::<u64>::empty().push(now) =~= seq![now]);
}

/// The instants of `h` within one window of `now`, in order.
pub open spec fn recent(h: Seq<u64>, now: u64, window: u128) -> Seq<u64>
    decreases h.len(),
{
    if h.len() == 0 {
        h
    } else if elapsed(now, h[0]) > window {
        recent(h.drop_first(), now, window)
    } else {
        seq![h[0]] + recent(h.drop_first(), now, window)
    }
}

/// Instants in the order they came, none later than `now`.
pub open spec fn in_order_until(h: Seq<u64>, now: u64) -> bool {
    &&& forall|i: int, j: int| 0 <= i <= j < h.len() ==> h[i] <= h[j]
    &&& forall|i: int| 0 <= i < h.len() ==> h[i] <= now
}

/// The stored timestamps `ts` are the history `h` without a prefix that is
/// older than one window at `now`.
pub open spec fn keeps_recent(ts: Seq<u64>, h: Seq<u64>, now: u64, window: u128) -> bool {
    exists|k: int|
        0 <= k <= h.len() && ts == h.skip(k) && forall|i: int|
            0 <= i < k ==> #[trigger] elapsed(now, h[i]) > window
}

/// In an ordered history, once an instant is within the window, so is every
/// later one: pruning from the front keeps exactly the recent ones.
proof fn lemma_prune_is_recent(ts: Seq<u64>, now: u64, window: u128)
    requires
        in_order_until(ts, now),
    ensures
        prune(ts, now, window) == recent(ts, now, window),
    decreases ts.len(),
{
    if ts.len() > 0 {
        assert(in_order_until(ts.drop_first(), now));
        lemma_prune_is_recent(ts.drop_first(), now, window);
        if elapsed(now, ts[0]) <= window {
            lemma_recent_keeps_all(ts, now, window);
        }
    }
}

/// An ordered history whose first instant is within the window is recent as
/// a whole.
proof fn lemma_recent_keeps_all(ts: Seq<u64>, now: u64, window: u128)
    requires
        in_order_until(ts, now),
        ts.len() > 0 ==> elapsed(now, ts[0]) <= window,
    ensures
        recent(ts, now, window) == ts,
    decreases ts.len(),
{
    if ts.len() > 0 {
        let rest = ts.drop_first();
        assert(in_order_until(rest, now));
        if rest.len() > 0 {
            assert(ts[0] <= ts[1]);
        }
        lemma_recent_keeps_all(rest, now, window);
        assert(seq![ts[0]] + rest =~= ts);
    }
}

/// Dropping a stale prefix does not change what is recent.
proof fn lemma_stale_prefix_not_recent(h: Seq<u64>, k: int, now: u64, window: u128)
    requires
        0 <= k <= h.len(),
        forall|i: int| 0 <= i < k ==> #[trigger] elapsed(now, h[i]) > window,
    ensures
        recent(h, now, window) == recent(h.skip(k), now, window),
    decreases k,
{
    if k > 0 {
        assert(elapsed(now, h[0]) > window);
        let rest = h.drop_first();
        assert forall|i: int| 0 <= i < k - 1 implies #[trigger] elapsed(now, rest[i]) > window by {
            assert(rest[i] == h[i + 1]);
            assert(elapsed(now, h[i + 1]) > window);
        }
        lemma_stale_prefix_not_recent(rest, k - 1, now, window);
        assert(rest.skip(k - 1) =~= h.skip(k));
    } else {
        assert(h.skip(0) =~= h);
    }
}

/// The recent part of an ordered history is a suffix of it, preceded only
/// by stale instants.
proof fn lemma_recent_is_suffix(h: Seq<u64>, now: u64, window: u128)
    requires
        in_order_until(h, now),
    ensures
        keeps_recent(recent(h, now, window), h, now, window),
    decreases h.len(),
{
    if h.len() == 0 {
        assert(h.skip(0) =~= h);
    } else if elapsed(now, h[0]) > window {
        let rest = h.drop_first();
        assert(in_order_until(rest, now));
        lemma_recent_is_suffix(rest, now, window);
        let k = choose|k: int|
            0 <= k <= rest.len() && recent(rest, now, window) == rest.skip(k) && forall|i: int|
                0 <= i < k ==> #[trigger] elapsed(now, rest[i]) > window;
        assert(rest.skip(k) =~= h.skip(k + 1));
        assert forall|i: int| 0 <= i < k + 1 implies #[trigger] elapsed(now, h[i]) > window by {
            if i > 0 {
                assert(h[i] == rest[i - 1]);
            }
        }
    } else {
        lemma_recent_keeps_all(h, now, window);
        assert(h.skip(0) =~= h);
    }
}

/// Law: the sliding window counts the recent history. Let `h` be the
/// instants of the messages allowed since the limiter was created or last
/// left its cooldown, in the order they came, none later than `now`, and
/// let the limiter hold `h` less some prefix that was already stale. Then
/// a message at `now`, outside a cooldown, is allowed exactly when fewer
/// than `limit` instants of `h` lie within one window of `now`; when it is
/// allowed, `now` joins the history and the limiter again holds the history
/// less a stale prefix, for any later time; when it is refused, a cooldown
/// of one window starts and the history is kept.
pub proof fn lemma_window_counts_recent_history(
    h: Seq<u64>,
    ts: Seq<u64>,
    now: u64,
    later: u64,
    limit: u32,
    window: u128,
)
    requires
        in_order_until(h, now),
        keeps_recent(ts, h, now, window),
        now <= later,
    ensures
        check_spec(LimiterState { timestamps: ts, cooldown_until: None }, now, limit, window).1 == (
        recent(h, now, window).len() < limit),
        check_spec(LimiterState { timestamps: ts, cooldown_until: None }, now, limit, window).1
            ==> keeps_recent(
            check_spec(
                LimiterState { timestamps: ts, cooldown_until: None },
                now,
                limit,
                window,
            ).0.timestamps,
            h.push(now),
            later,
            window,
        ),
        !check_spec(LimiterState { timestamps: ts, cooldown_until: None }, now, limit, window).1
            ==> check_spec(
            LimiterState { timestamps: ts, cooldown_until: None },
            now,
            limit,
            window,
        ).0 == (LimiterState {
            timestamps: recent(h, now, window),
            cooldown_until: Some((now + window) as u128),
        }),
{
    let k = choose|k: int|
        0 <= k <= h.len() && ts == h.skip(k) && forall|i: int|
            0 <= i < k ==> #[trigger] elapsed(now, h[i]) > window;
    assert(in_order_until(ts, now)) by {
        assert forall|i: int, j: int| 0 <= i <= j < ts.len() implies ts[i] <= ts[j] by {
            assert(ts[i] == h[i + k] && ts[j] == h[j + k]);
        }
        assert forall|i: int| 0 <= i < ts.len() implies ts[i] <= now by {
            assert(ts[i] == h[i + k]);
        }
    }
    lemma_prune_is_recent(ts, now, window);
    lemma_stale_prefix_not_recent(h, k, now, window);
    let r = recent(h, now, window);
    if r.len() < limit {
        lemma_recent_is_suffix(h, now, window);
        let m = choose|m: int|
            0 <= m <= h.len() && r == h.skip(m) && forall|i: int|
                0 <= i < m ==> #[trigger] elapsed(now, h[i]) > window;
        let h2 = h.push(now);
        assert(r.push(now) =~= h2.skip(m));
        assert forall|i: int| 0 <= i < m implies #[trigger] elapsed(later, h2[i]) > window by {
            assert(h2[i] == h[i]);
            assert(elapsed(now, h[i]) > window);
        }
    }
}

} // verus!
