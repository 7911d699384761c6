//! Per-app and global rate limiting for notifications.
//!
//! Prevents notification spam by enforcing:
//! - Per-app: max 10 notifications per second
//! - Global: max 50 notifications per second

use crate::calls::{outcome_of, outcome_on};
use crate::names::{entry_index, lemma_entry_index, lemma_entry_index_properties};
use crate::text::str_eq;
use std::time::Instant;
use vstd::prelude::*;

verus! {

/// Notifications that one app may send within the window.
pub const PER_APP_LIMIT: u32 = 10;

/// Notifications that all apps together may send within the window.
pub const GLOBAL_LIMIT: u32 = 50;

/// The window in nanoseconds: one second.
pub const WINDOW_NANOS: u64 = 1_000_000_000;

/// `std::time::Instant`: a reading of the monotonic clock.
#[verifier::external_type_specification]
#[verifier::external_body]
pub struct ExInstant(std::time::Instant);

/// `std::time::Instant::now`: a reading of the monotonic clock. Nothing is
/// claimed of it.
#[verifier::external_body]
fn start_clock() -> (r: Instant) {
    Instant::now()
}

/// `std::time::Instant::elapsed`: the time since a reading, in nanoseconds.
/// Nothing is claimed of it.
#[verifier::external_body]
fn nanos_since(start: &Instant) -> (r: u64) {
    start.elapsed().as_nanos() as u64
}

/// Whether a reading may be what the monotonic clock gave when it was read.
pub closed spec fn started(clock: Instant) -> bool {
    call_ensures(start_clock, (), clock)
}

/// Whether a time may be what had elapsed since a reading when that was asked.
pub closed spec fn ticked(clock: Instant, tick: u64) -> bool {
    call_ensures(nanos_since, (&clock,), tick)
}

/// Whether a time is still within the window that ends at `now`.
pub open spec fn is_recent(now: u64) -> spec_fn(u64) -> bool {
    |t: u64| t + WINDOW_NANOS > now
}

/// The times that are still within the window that ends at `now`.
pub open spec fn recent(times: Seq<u64>, now: u64) -> Seq<u64> {
    times.filter(is_recent(now))
}

/// The content of a [`RateLimiter`]: the recorded times, in the order in which
/// they were recorded.
#[verifier::ext_equal]
pub struct LimiterView {
    /// The start of the limiter's clock.
    pub clock: Instant,
    /// The times of each app. Every name has an entry.
    pub apps: Map<Seq<char>, Seq<u64>>,
    /// The times of all apps together.
    pub global: Seq<u64>,
}

impl LimiterView {
    /// Nothing recorded.
    pub open spec fn empty(clock: Instant) -> LimiterView {
        LimiterView {
            clock,
            apps: Map::new(|name: Seq<char>| true, |name: Seq<char>| Seq::<u64>::empty()),
            global: Seq::empty(),
        }
    }

    /// Without the times that have left the window.
    pub open spec fn pruned(self, now: u64) -> LimiterView {
        LimiterView {
            apps: Map::new(|name: Seq<char>| true, |name: Seq<char>| recent(self.apps[name], now)),
            global: recent(self.global, now),
            ..self
        }
    }

    /// Whether an attempt of an app is allowed: both counts within the window
    /// are below their limits.
    pub open spec fn admits(
        self,
        app_name: Seq<char>,
        now: u64,
        per_app_limit: nat,
        global_limit: nat,
    ) -> bool {
        recent(self.global, now).len() < global_limit && recent(self.apps[app_name], now).len()
            < per_app_limit
    }

    /// After an attempt of an app: it is recorded if it was allowed.
    pub open spec fn after(
        self,
        app_name: Seq<char>,
        now: u64,
        per_app_limit: nat,
        global_limit: nat,
    ) -> LimiterView {
        let kept = self.pruned(now);
        if self.admits(app_name, now, per_app_limit, global_limit) {
            LimiterView {
                apps: kept.apps.insert(app_name, kept.apps[app_name].push(now)),
                global: kept.global.push(now),
                ..kept
            }
        } else {
            kept
        }
    }
}

/// The recorded times of an app.
pub open spec fn times_of(entries: Seq<(String, Vec<u64>)>, name: Seq<char>) -> Seq<u64> {
    let k = entry_index(entries, name);
    if k < entries.len() {
        entries[k].1@
    } else {
        Seq::empty()
    }
}

/// Sliding-window rate limiter.
#[derive(Debug)]
pub struct RateLimiter {
    /// The start of the limiter's own clock.
    epoch: Instant,
    per_app: Vec<(String, Vec<u64>)>,
    global: Vec<u64>,
}

impl View for RateLimiter {
    type V = LimiterView;

    closed spec fn view(&self) -> LimiterView {
        LimiterView {
            clock: self.epoch,
            apps: Map::new(
                |name: Seq<char>| true,
                |name: Seq<char>| times_of(self.per_app@, name),
            ),
            global: self.global@,
        }
    }
}

/// Keeps the times that are still within the window.
fn keep_recent(times: &Vec<u64>, now: u64) -> (r: Vec<u64>)
    ensures
        r@ == recent(times@, now),
{
    let mut kept: Vec<u64> = Vec::new();
    let mut i: usize = 0;
    proof {
        reveal(Seq::filter);
    }
    while i < times.len()
        invariant
            i <= times@.len(),
            kept@ == recent(times@.take(i as int), now),
        decreases times@.len() - i,
    {
        let t: u64 = times[i];
        proof {
            reveal(Seq::filter);
            assert(times@.take(i + 1).drop_last() =~= times@.take(i as int));
        }
        if now < WINDOW_NANOS || t > now - WINDOW_NANOS {
            kept.push(t);
        }
        i += 1;
    }
    assert(times@.take(i as int) =~= times@);
    kept
}

impl RateLimiter {
    /// Create a new rate limiter. Its clock starts now.
    pub fn new() -> (r: Self)
        ensures
            r@ == LimiterView::empty(r@.clock),
            started(r@.clock),
    {
        let epoch: Instant = outcome_of(start_clock);
        let r = RateLimiter { epoch, per_app: Vec::new(), global: Vec::new() };
        assert(r@.apps =~= LimiterView::empty(epoch).apps);
        r
    }

    /// The position of the entry of an app.
    fn position(&self, name: &str) -> (r: usize)
        ensures
            r == entry_index(self.per_app@, name@),
            r <= self.per_app@.len(),
    {
        let mut i: usize = 0;
        while i < self.per_app.len()
            invariant
                i <= self.per_app@.len(),
                forall|j: int| 0 <= j < i ==> #[trigger] self.per_app@[j].0@ != name@,
            decreases self.per_app@.len() - i,
        {
            if str_eq(self.per_app[i].0.as_str(), name) {
                proof {
                    lemma_entry_index(self.per_app@, name@, i as int);
                }
                return i;
            }
            i += 1;
        }
        proof {
            lemma_entry_index(self.per_app@, name@, i as int);
        }
        i
    }

    /// Remove timestamps older than the window that ends at `now`.
    pub fn prune(&mut self, now: u64)
        ensures
            final(self)@ == old(self)@.pruned(now),
    {
        let ghost before = self.per_app@;
        self.global = keep_recent(&self.global, now);
        let mut entries: Vec<(String, Vec<u64>)> = Vec::new();
        let mut i: usize = 0;
        while i < self.per_app.len()
            invariant
                i <= self.per_app@.len(),
                self.per_app@ == before,
                entries@.len() == i,
                forall|j: int| 0 <= j < i ==> (#[trigger] entries@[j]).0@ == before[j].0@,
                forall|j: int|
                    0 <= j < i ==> (#[trigger] entries@[j]).1@ == recent(before[j].1@, now),
            decreases self.per_app@.len() - i,
        {
            let name: String = self.per_app[i].0.clone();
            let times: Vec<u64> = keep_recent(&self.per_app[i].1, now);
            entries.push((name, times));
            i += 1;
        }
        self.per_app = entries;
        proof {
            reveal(Seq::filter);
            assert forall|name: Seq<char>| #[trigger] times_of(self.per_app@, name) == recent(
                times_of(before, name),
                now,
            ) by {
                lemma_entry_index_properties(before, name);
                let k = entry_index(before, name);
                assert forall|j: int| 0 <= j < k implies #[trigger] self.per_app@[j].0@
                    != name by {
                    assert(before[j].0@ != name);
                }
                lemma_entry_index(self.per_app@, name, k);
            }
            assert(self@.apps =~= old(self)@.pruned(now).apps);
        }
    }

    /// Check whether a notification from `app_name` is allowed at a time, in
    /// nanoseconds on the limiter's clock, under given limits.
    ///
    /// Returns `true` if allowed, `false` if rate-limited. Records the attempt
    /// if allowed.
    pub fn check_with_limits_at(
        &mut self,
        app_name: &str,
        now: u64,
        per_app_limit: u32,
        global_limit: u32,
    ) -> (r: bool)
        ensures
            r == old(self)@.admits(app_name@, now, per_app_limit as nat, global_limit as nat),
            final(self)@ == old(self)@.after(
                app_name@,
                now,
                per_app_limit as nat,
                global_limit as nat,
            ),
    {
        self.prune(now);
        if self.global.len() >= global_limit as usize {
            return false;
        }
        let ghost before = self.per_app@;
        let ghost kept = self@;
        let ghost name = app_name@;
        let i: usize = self.position(app_name);
        proof {
            lemma_entry_index_properties(before, name);
        }
        let mut times: Vec<u64> = Vec::new();
        if i < self.per_app.len() {
            times = self.per_app[i].1.clone();
        }
        assert(times@ =~= times_of(before, name));
        assert(kept.apps[name] == times_of(before, name));
        if times.len() >= per_app_limit as usize {
            return false;
        }
        times.push(now);
        let ghost recorded = times@;
        self.global.push(now);
        let entry: (String, Vec<u64>) = (app_name.to_string(), times);
        if i < self.per_app.len() {
            self.per_app.set(i, entry);
        } else {
            self.per_app.push(entry);
        }
        proof {
            let after = self.per_app@;
            assert(entry_index(after, name) == i as int) by {
                assert forall|j: int| 0 <= j < i implies #[trigger] after[j].0@ != name by {
                    assert(before[j].0@ != name);
                }
                lemma_entry_index(after, name, i as int);
            }
            assert forall|other: Seq<char>| other != name implies #[trigger] times_of(after, other)
                == times_of(before, other) by {
                lemma_entry_index_properties(before, other);
                let k = entry_index(before, other);
                assert forall|j: int| 0 <= j < k implies #[trigger] after[j].0@ != other by {
                    if j < before.len() {
                        assert(before[j].0@ != other);
                    }
                }
                if k < before.len() {
                    assert(after[k].0@ == other);
                    lemma_entry_index(after, other, k);
                } else {
                    lemma_entry_index(after, other, after.len() as int);
                }
            }
            assert(self@.apps =~= kept.apps.insert(name, recorded));
        }
        true
    }

    /// Check whether a notification from `app_name` is allowed at a time, in
    /// nanoseconds on the limiter's clock.
    pub fn check_at(&mut self, app_name: &str, now: u64) -> (r: bool)
        ensures
            r == old(self)@.admits(app_name@, now, PER_APP_LIMIT as nat, GLOBAL_LIMIT as nat),
            final(self)@ == old(self)@.after(
                app_name@,
                now,
                PER_APP_LIMIT as nat,
                GLOBAL_LIMIT as nat,
            ),
    {
        self.check_with_limits_at(app_name, now, PER_APP_LIMIT, GLOBAL_LIMIT)
    }

    /// Check whether a notification from `app_name` is allowed now.
    ///
    /// Returns `true` if allowed, `false` if rate-limited. Automatically
    /// records the attempt if allowed.
    pub fn check(&mut self, app_name: &str) -> (r: bool)
        ensures
            exists|now: u64| #[trigger]
                ticked(old(self)@.clock, now) && r == old(self)@.admits(
                    app_name@,
                    now,
                    PER_APP_LIMIT as nat,
                    GLOBAL_LIMIT as nat,
                ) && final(self)@ == old(self)@.after(
                    app_name@,
                    now,
                    PER_APP_LIMIT as nat,
                    GLOBAL_LIMIT as nat,
                ),
    {
        let now: u64 = self.now();
        self.check_at(app_name, now)
    }

    /// Check with custom limits.
    pub fn check_with_limits(
        &mut self,
        app_name: &str,
        per_app_limit: u32,
        global_limit: u32,
    ) -> (r: bool)
        ensures
            exists|now: u64| #[trigger]
                ticked(old(self)@.clock, now) && r == old(self)@.admits(
                    app_name@,
                    now,
                    per_app_limit as nat,
                    global_limit as nat,
                ) && final(self)@ == old(self)@.after(
                    app_name@,
                    now,
                    per_app_limit as nat,
                    global_limit as nat,
                ),
    {
        let now: u64 = self.now();
        self.check_with_limits_at(app_name, now, per_app_limit, global_limit)
    }

    /// The time on the limiter's clock, in nanoseconds.
    pub(crate) fn now(&self) -> (r: u64)
        ensures
            ticked(self@.clock, r),
    {
        outcome_on(nanos_since, &self.epoch)
    }
}

/// An attempt of an app at a time on the limiter's clock.
pub struct Attempt {
    pub app_name: Seq<char>,
    pub time: u64,
}

/// Attempts whose times never go back, as those of a monotonic clock.
pub open spec fn in_order(attempts: Seq<Attempt>) -> bool {
    forall|i: int, j: int|
        0 <= i <= j < attempts.len() ==> (#[trigger] attempts[i]).time <= (
        #[trigger] attempts[j]).time
}

/// The content of a new limiter after a series of attempts.
pub open spec fn state_after(
    clock: Instant,
    attempts: Seq<Attempt>,
    per_app_limit: nat,
    global_limit: nat,
) -> LimiterView
    decreases attempts.len(),
{
    if attempts.len() == 0 {
        LimiterView::empty(clock)
    } else {
        let a = attempts.last();
        state_after(clock, attempts.drop_last(), per_app_limit, global_limit).after(
            a.app_name,
            a.time,
            per_app_limit,
            global_limit,
        )
    }
}

/// The times of the attempts of a series that were allowed: those of one app,
/// or of all apps together.
pub open spec fn allowed_times(
    clock: Instant,
    attempts: Seq<Attempt>,
    app_name: Option<Seq<char>>,
    per_app_limit: nat,
    global_limit: nat,
) -> Seq<u64>
    decreases attempts.len(),
{
    if attempts.len() == 0 {
        Seq::empty()
    } else {
        let a = attempts.last();
        let earlier = allowed_times(
            clock,
            attempts.drop_last(),
            app_name,
            per_app_limit,
            global_limit,
        );
        if state_after(clock, attempts.drop_last(), per_app_limit, global_limit).admits(
            a.app_name,
            a.time,
            per_app_limit,
            global_limit,
        ) && (app_name is None || app_name == Some(a.app_name)) {
            earlier.push(a.time)
        } else {
            earlier
        }
    }
}

/// Whether a time lies in the window that begins at `start`.
pub open spec fn is_in_window(start: u64) -> spec_fn(u64) -> bool {
    |t: u64| start <= t < start + WINDOW_NANOS
}

/// A narrower filter keeps no more.
proof fn lemma_filter_narrower(
    s: Seq<u64>,
    narrow: spec_fn(u64) -> bool,
    wide: spec_fn(u64) -> bool,
)
    requires
        forall|t: u64| #[trigger] narrow(t) ==> wide(t),
    ensures
        s.filter(narrow).len() <= s.filter(wide).len(),
    decreases s.len(),
{
    reveal(Seq::filter);
    if s.len() > 0 {
        lemma_filter_narrower(s.drop_last(), narrow, wide);
    }
}

/// Pruning at an earlier time before a later one makes no difference.
proof fn lemma_recent_twice(times: Seq<u64>, earlier: u64, later: u64)
    requires
        earlier <= later,
    ensures
        recent(recent(times, earlier), later) == recent(times, later),
    decreases times.len(),
{
    reveal(Seq::filter);
    if times.len() > 0 {
        lemma_recent_twice(times.drop_last(), earlier, later);
        let kept = recent(times.drop_last(), earlier);
        lemma_recent_push(kept, times.last(), later);
    }
}

/// Pruning with one time more.
proof fn lemma_recent_push(times: Seq<u64>, t: u64, now: u64)
    ensures
        recent(times.push(t), now) == (if t + WINDOW_NANOS > now {
            recent(times, now).push(t)
        } else {
            recent(times, now)
        }),
{
    reveal(Seq::filter);
    assert(times.push(t).drop_last() =~= times);
}

/// What a limiter holds after attempts in order, up to pruning at a later
/// time, are the times that were allowed.
proof fn lemma_limiter_holds_allowed_times(
    clock: Instant,
    attempts: Seq<Attempt>,
    app_name: Option<Seq<char>>,
    now: u64,
    per_app_limit: nat,
    global_limit: nat,
)
    requires
        in_order(attempts),
        attempts.len() > 0 ==> attempts.last().time <= now,
    ensures
        ({
            let state = state_after(clock, attempts, per_app_limit, global_limit);
            let held = match app_name {
                Some(name) => state.apps[name],
                None => state.global,
            };
            recent(held, now) == recent(
                allowed_times(clock, attempts, app_name, per_app_limit, global_limit),
                now,
            )
        }),
    decreases attempts.len(),
{
    reveal(Seq::filter);
    if attempts.len() > 0 {
        let a = attempts.last();
        let earlier = attempts.drop_last();
        assert(in_order(earlier)) by {
            assert forall|i: int, j: int| 0 <= i <= j < earlier.len() implies (
            #[trigger] earlier[i]).time <= (#[trigger] earlier[j]).time by {
                assert(earlier[i] == attempts[i] && earlier[j] == attempts[j]);
            }
        }
        if earlier.len() > 0 {
            assert(earlier.last() == attempts[earlier.len() - 1]);
            assert(attempts.last() == attempts[attempts.len() - 1]);
        }
        lemma_limiter_holds_allowed_times(
            clock,
            earlier,
            app_name,
            a.time,
            per_app_limit,
            global_limit,
        );
        lemma_limiter_holds_allowed_times(
            clock,
            earlier,
            app_name,
            now,
            per_app_limit,
            global_limit,
        );
        let state = state_after(clock, earlier, per_app_limit, global_limit);
        let held = match app_name {
            Some(name) => state.apps[name],
            None => state.global,
        };
        let times = allowed_times(clock, earlier, app_name, per_app_limit, global_limit);
        lemma_recent_twice(held, a.time, now);
        lemma_recent_push(recent(held, a.time), a.time, now);
        lemma_recent_push(times, a.time, now);
    }
}

/// An attempt is allowed exactly if fewer earlier attempts than the per-app
/// limit were allowed to the app, and fewer than the global limit to all apps
/// together, within the window that ends with it. Times never go back.
pub proof fn admission_counts_allowed_attempts(
    clock: Instant,
    attempts: Seq<Attempt>,
    app_name: Seq<char>,
    now: u64,
    per_app_limit: nat,
    global_limit: nat,
)
    requires
        in_order(attempts),
        attempts.len() > 0 ==> attempts.last().time <= now,
    ensures
        state_after(clock, attempts, per_app_limit, global_limit).admits(
            app_name,
            now,
            per_app_limit,
            global_limit,
        ) <==> recent(
            allowed_times(clock, attempts, Some(app_name), per_app_limit, global_limit),
            now,
        ).len() < per_app_limit && recent(
            allowed_times(clock, attempts, None, per_app_limit, global_limit),
            now,
        ).len() < global_limit,
{
    lemma_limiter_holds_allowed_times(
        clock,
        attempts,
        Some(app_name),
        now,
        per_app_limit,
        global_limit,
    );
    lemma_limiter_holds_allowed_times(clock, attempts, None, now, per_app_limit, global_limit);
}

/// The rate limits hold: of attempts whose times never go back, no more than
/// the per-app limit of one app, and no more than the global limit of all apps
/// together, are allowed within any window of one second.
pub proof fn limits_hold_in_every_window(
    clock: Instant,
    attempts: Seq<Attempt>,
    app_name: Seq<char>,
    start: u64,
    per_app_limit: nat,
    global_limit: nat,
)
    requires
        in_order(attempts),
    ensures
        allowed_times(clock, attempts, Some(app_name), per_app_limit, global_limit).filter(
            is_in_window(start),
        ).len() <= per_app_limit,
        allowed_times(clock, attempts, None, per_app_limit, global_limit).filter(
            is_in_window(start),
        ).len() <= global_limit,
{
    lemma_window_bound(clock, attempts, Some(app_name), start, per_app_limit, global_limit);
    lemma_window_bound(clock, attempts, None, start, per_app_limit, global_limit);
}

proof fn lemma_window_bound(
    clock: Instant,
    attempts: Seq<Attempt>,
    app_name: Option<Seq<char>>,
    start: u64,
    per_app_limit: nat,
    global_limit: nat,
)
    requires
        in_order(attempts),
    ensures
        allowed_times(clock, attempts, app_name, per_app_limit, global_limit).filter(
            is_in_window(start),
        ).len() <= (if app_name is Some {
            per_app_limit
        } else {
            global_limit
        }),
    decreases attempts.len(),
{
    reveal(Seq::filter);
    if attempts.len() > 0 {
        let a = attempts.last();
        let earlier = attempts.drop_last();
        assert forall|i: int, j: int| 0 <= i <= j < earlier.len() implies (
        #[trigger] earlier[i]).time <= (#[trigger] earlier[j]).time by {
            assert(earlier[i] == attempts[i] && earlier[j] == attempts[j]);
        }
        if earlier.len() > 0 {
            assert(earlier.last() == attempts[earlier.len() - 1]);
            assert(attempts.last() == attempts[attempts.len() - 1]);
        }
        lemma_window_bound(clock, earlier, app_name, start, per_app_limit, global_limit);
        lemma_limiter_holds_allowed_times(
            clock,
            earlier,
            app_name,
            a.time,
            per_app_limit,
            global_limit,
        );
        let times = allowed_times(clock, earlier, app_name, per_app_limit, global_limit);
        assert(times.push(a.time).drop_last() =~= times);
        if start <= a.time < start + WINDOW_NANOS {
            lemma_filter_narrower(times, is_in_window(start), is_recent(a.time));
        }
    }
}

/// An attempt is allowed if neither the app nor all apps together have reached
/// their limit, whatever else was recorded.
pub proof fn quiet_limiter_admits(
    limiter: LimiterView,
    app_name: Seq<char>,
    now: u64,
    per_app_limit: nat,
    global_limit: nat,
)
    requires
        limiter.apps[app_name].len() < per_app_limit,
        limiter.global.len() < global_limit,
    ensures
        limiter.admits(app_name, now, per_app_limit, global_limit),
{
    limiter.apps[app_name].lemma_filter_len(is_recent(now));
    limiter.global.lemma_filter_len(is_recent(now));
}

/// Attempts of one app leave the times of every other app alone, but for those
/// that left the window.
pub proof fn apps_are_counted_apart(
    limiter: LimiterView,
    app_name: Seq<char>,
    other: Seq<char>,
    now: u64,
    per_app_limit: nat,
    global_limit: nat,
)
    requires
        other != app_name,
    ensures
        limiter.after(app_name, now, per_app_limit, global_limit).apps[other] == recent(
            limiter.apps[other],
            now,
        ),
{
}

/// Once every recorded time has left the window, any app may send again, as
/// far as the limits allow anything.
pub proof fn window_resets(
    limiter: LimiterView,
    app_name: Seq<char>,
    now: u64,
    per_app_limit: nat,
    global_limit: nat,
)
    requires
        forall|i: int|
            0 <= i < limiter.global.len() ==> #[trigger] limiter.global[i] + WINDOW_NANOS <= now,
        forall|i: int|
            0 <= i < limiter.apps[app_name].len() ==> #[trigger] limiter.apps[app_name][i]
                + WINDOW_NANOS <= now,
        per_app_limit > 0,
        global_limit > 0,
    ensures
        limiter.admits(app_name, now, per_app_limit, global_limit),
{
    lemma_none_recent(limiter.global, now);
    lemma_none_recent(limiter.apps[app_name], now);
}

proof fn lemma_none_recent(times: Seq<u64>, now: u64)
    requires
        forall|i: int| 0 <= i < times.len() ==> #[trigger] times[i] + WINDOW_NANOS <= now,
    ensures
        recent(times, now).len() == 0,
    decreases times.len(),
{
    reveal(Seq::filter);
    if times.len() > 0 {
        let shorter = times.drop_last();
        assert forall|i: int| 0 <= i < shorter.len() implies #[trigger] shorter[i] + WINDOW_NANOS
            <= now by {
            assert(shorter[i] == times[i]);
        }
        lemma_none_recent(shorter, now);
        assert(times[times.len() - 1] + WINDOW_NANOS <= now);
    }
}

/// The limits: ten notifications per app and fifty in all, within one second.
pub proof fn limits_per_second()
    ensures
        PER_APP_LIMIT == 10,
        GLOBAL_LIMIT == 50,
        WINDOW_NANOS == 1_000_000_000,
{
}

/// A time counts up to one second after it, and no longer.
pub proof fn time_counts_for_one_second(times: Seq<u64>, t: u64, now: u64)
    ensures
        recent(times.push(t), now) == (if now < t + 1_000_000_000 {
            recent(times, now).push(t)
        } else {
            recent(times, now)
        }),
        recent(Seq::empty(), now) == Seq::<u64>::empty(),
{
    lemma_recent_push(times, t, now);
    reveal(Seq::filter);
}

/// An attempt is recorded once, for its app and for all apps together, exactly
/// if it is allowed; one that is refused is not counted.
pub proof fn only_allowed_attempts_are_recorded(
    limiter: LimiterView,
    app_name: Seq<char>,
    now: u64,
    per_app_limit: nat,
    global_limit: nat,
)
    ensures
        ({
            let after = limiter.after(app_name, now, per_app_limit, global_limit);
            let own = recent(limiter.apps[app_name], now);
            let all = recent(limiter.global, now);
            if own.len() < per_app_limit && all.len() < global_limit {
                after.apps[app_name] == own.push(now) && after.global == all.push(now)
            } else {
                after.apps[app_name] == own && after.global == all
            }
        }),
        limiter.after(app_name, now, per_app_limit, global_limit).clock == limiter.clock,
{
}

} // verus!
