//! A repeating countdown in whole nanoseconds.

use bevy::time::{Timer, TimerMode};
use std::time::Duration;
use vstd::arithmetic::div_mod::{lemma_fundamental_div_mod, lemma_fundamental_div_mod_converse};
use vstd::prelude::*;

verus! {

/// Nanoseconds in one second.
pub const NANOS_PER_SECOND: u64 = 1_000_000_000;

/// Time on the clock of a repeating timer of length `period` that had
/// `elapsed` on its clock and was advanced by `delta`.
pub open spec fn elapsed_after(period: nat, elapsed: nat, delta: nat) -> nat {
    (elapsed + delta) % period
}

/// Number of whole periods that end while a repeating timer of length
/// `period` with `elapsed` on its clock is advanced by `delta`.
pub open spec fn periods_completed(period: nat, elapsed: nat, delta: nat) -> nat {
    (elapsed + delta) / period
}

/// Whether advancing by `delta` brings the timer to the end of a period.
pub open spec fn fires(period: nat, elapsed: nat, delta: nat) -> bool {
    elapsed + delta >= period
}

/// Advances a fresh repeating `bevy::time::Timer` of length `period_nanos`,
/// whose clock was set to `elapsed_nanos`, by one `Timer::tick` of
/// `delta_nanos`, and reads it back.
///
/// Trusted: the triple is the timer's `elapsed()` in nanoseconds, its
/// `finished()` flag and its `times_finished_this_tick()`. The timer adds the
/// delta to its clock; if the clock has reached the period it counts the whole
/// periods on the clock, takes them off and reports itself finished, otherwise
/// it counts none. The timer keeps the count in a `u32` and divides by the
/// period, which is why the period must not be zero and the count must fit.
#[verifier::external_body]
fn tick_repeating(period_nanos: u64, elapsed_nanos: u64, delta_nanos: u64) -> (r: (u64, bool, u32))
    requires
        period_nanos > 0,
        periods_completed(period_nanos as nat, elapsed_nanos as nat, delta_nanos as nat)
            <= u32::MAX,
    ensures
        r.0 == elapsed_after(period_nanos as nat, elapsed_nanos as nat, delta_nanos as nat),
        r.1 == fires(period_nanos as nat, elapsed_nanos as nat, delta_nanos as nat),
        r.2 == periods_completed(period_nanos as nat, elapsed_nanos as nat, delta_nanos as nat),
{
    let mut timer = Timer::new(Duration::from_nanos(period_nanos), TimerMode::Repeating);
    timer.set_elapsed(Duration::from_nanos(elapsed_nanos));
    timer.tick(Duration::from_nanos(delta_nanos));
    (timer.elapsed().as_nanos() as u64, timer.finished(), timer.times_finished_this_tick())
}

/// A timer that starts over each time its period has run out.
#[derive(Clone, Copy, Debug, PartialEq, Eq)]
pub struct RepeatingTimer {
    period_nanos: u64,
    elapsed_nanos: u64,
    finished: bool,
    times_finished_this_tick: u32,
}

impl RepeatingTimer {
    #[verifier::type_invariant]
    spec fn well_formed(self) -> bool {
        0 < self.period_nanos && self.elapsed_nanos < self.period_nanos
    }

    /// Length of one period, in nanoseconds.
    pub closed spec fn period(self) -> nat {
        self.period_nanos as nat
    }

    /// Time on the clock since the current period began, in nanoseconds.
    pub closed spec fn elapsed(self) -> nat {
        self.elapsed_nanos as nat
    }

    /// Whether the latest tick reached the end of a period.
    pub closed spec fn fired(self) -> bool {
        self.finished
    }

    /// Number of periods that the latest tick completed.
    pub closed spec fn completed(self) -> nat {
        self.times_finished_this_tick as nat
    }

    /// A timer of the given period with nothing on its clock.
    pub fn new(period_nanos: u64) -> (timer: Self)
        requires
            period_nanos > 0,
        ensures
            timer.period() == period_nanos,
            timer.elapsed() == 0,
            !timer.fired(),
            timer.completed() == 0,
    {
        RepeatingTimer { period_nanos, elapsed_nanos: 0, finished: false, times_finished_this_tick: 0 }
    }

    /// Whether a tick of `delta_nanos` keeps the count of completed periods
    /// within what the timer can hold.
    pub fn can_tick(&self, delta_nanos: u64) -> (ok: bool)
        ensures
            ok == (periods_completed(self.period(), self.elapsed(), delta_nanos as nat) <= u32::MAX),
    {
        proof {
            use_type_invariant(self);
        }
        let total: u128 = self.elapsed_nanos as u128 + delta_nanos as u128;
        total / (self.period_nanos as u128) <= u32::MAX as u128
    }

    /// Advances the clock by `delta_nanos` and tells whether a period ended.
    pub fn tick(&mut self, delta_nanos: u64) -> (fired: bool)
        requires
            periods_completed(old(self).period(), old(self).elapsed(), delta_nanos as nat) <= u32::MAX,
        ensures
            final(self).period() == old(self).period(),
            final(self).elapsed() == elapsed_after(old(self).period(), old(self).elapsed(), delta_nanos as nat),
            final(self).completed() == periods_completed(old(self).period(), old(self).elapsed(), delta_nanos as nat),
            final(self).fired() == fired,
            fired == fires(old(self).period(), old(self).elapsed(), delta_nanos as nat),
    {
        proof {
            use_type_invariant(&*self);
        }
        let r = tick_repeating(self.period_nanos, self.elapsed_nanos, delta_nanos);
        *self = RepeatingTimer {
            period_nanos: self.period_nanos,
            elapsed_nanos: r.0,
            finished: r.1,
            times_finished_this_tick: r.2,
        };
        r.1
    }

    /// Length of one period.
    pub fn period_nanos(&self) -> (p: u64)
        ensures
            p == self.period(),
            p > 0,
    {
        proof {
            use_type_invariant(self);
        }
        self.period_nanos
    }

    /// Time on the clock since the current period began.
    pub fn elapsed_nanos(&self) -> (e: u64)
        ensures
            e == self.elapsed(),
            e < self.period(),
    {
        proof {
            use_type_invariant(self);
        }
        self.elapsed_nanos
    }

    /// Whether the latest tick reached the end of a period.
    pub fn finished(&self) -> (f: bool)
        ensures
            f == self.fired(),
    {
        self.finished
    }

    /// Number of periods that the latest tick completed.
    pub fn times_finished_this_tick(&self) -> (n: u32)
        ensures
            n == self.completed(),
    {
        self.times_finished_this_tick
    }
}

/// Sum of the frame times `deltas`.
pub open spec fn total_time(deltas: Seq<nat>) -> nat
    decreases deltas.len(),
{
    if deltas.len() == 0 {
        0
    } else {
        deltas[0] + total_time(deltas.skip(1))
    }
}

/// Clock of a repeating timer of length `period` that had `elapsed` on it,
/// after one tick for each of `deltas`, in order.
pub open spec fn elapsed_after_all(period: nat, elapsed: nat, deltas: Seq<nat>) -> nat
    decreases deltas.len(),
{
    if deltas.len() == 0 {
        elapsed
    } else {
        elapsed_after_all(period, elapsed_after(period, elapsed, deltas[0]), deltas.skip(1))
    }
}

/// Number of periods completed over the ticks `deltas`, summed tick by tick.
pub open spec fn periods_completed_by_all(period: nat, elapsed: nat, deltas: Seq<nat>) -> nat
    decreases deltas.len(),
{
    if deltas.len() == 0 {
        0
    } else {
        periods_completed(period, elapsed, deltas[0]) + periods_completed_by_all(
            period,
            elapsed_after(period, elapsed, deltas[0]),
            deltas.skip(1),
        )
    }
}

/// Number of the ticks `deltas` on which the timer fires.
pub open spec fn times_fired(period: nat, elapsed: nat, deltas: Seq<nat>) -> nat
    decreases deltas.len(),
{
    if deltas.len() == 0 {
        0
    } else {
        (if fires(period, elapsed, deltas[0]) { 1nat } else { 0nat }) + times_fired(
            period,
            elapsed_after(period, elapsed, deltas[0]),
            deltas.skip(1),
        )
    }
}

/// Whether none of the ticks `deltas` completes more than one period.
pub open spec fn one_period_per_tick(period: nat, elapsed: nat, deltas: Seq<nat>) -> bool
    decreases deltas.len(),
{
    deltas.len() == 0 || {
        &&& periods_completed(period, elapsed, deltas[0]) <= 1
        &&& one_period_per_tick(period, elapsed_after(period, elapsed, deltas[0]), deltas.skip(1))
    }
}

proof fn lemma_carry(period: int, a: int, b: int)
    requires
        period > 0,
        a >= 0,
        b >= 0,
    ensures
        a / period + (a % period + b) / period == (a + b) / period,
        (a % period + b) % period == (a + b) % period,
{
    let q = a / period + (a % period + b) / period;
    let r = (a % period + b) % period;
    lemma_fundamental_div_mod(a, period);
    lemma_fundamental_div_mod(a % period + b, period);
    assert(a + b == q * period + r) by (nonlinear_arith)
        requires
            a == period * (a / period) + a % period,
            a % period + b == period * ((a % period + b) / period) + r,
            q == a / period + (a % period + b) / period,
    ;
    lemma_fundamental_div_mod_converse(a + b, period, q, r);
}

/// However a stretch of time is cut into frames, a repeating timer ends up
/// with the same clock and has completed the same number of periods: one for
/// each whole period in the time on its clock at the start plus the total
/// frame time.
pub proof fn lemma_frame_rate_independent(period: nat, elapsed: nat, deltas: Seq<nat>)
    requires
        elapsed < period,
    ensures
        elapsed_after_all(period, elapsed, deltas) == (elapsed + total_time(deltas)) % period,
        periods_completed_by_all(period, elapsed, deltas) == (elapsed + total_time(deltas)) / period,
    decreases deltas.len(),
{
    if deltas.len() == 0 {
        lemma_fundamental_div_mod_converse(elapsed as int, period as int, 0, elapsed as int);
    } else {
        let next = elapsed_after(period, elapsed, deltas[0]);
        lemma_frame_rate_independent(period, next, deltas.skip(1));
        lemma_carry(period as int, (elapsed + deltas[0]) as int, total_time(deltas.skip(1)) as int);
    }
}

proof fn lemma_fires_iff_period_completed(period: nat, elapsed: nat, delta: nat)
    requires
        period > 0,
    ensures
        fires(period, elapsed, delta) <==> periods_completed(period, elapsed, delta) >= 1,
        delta <= period && elapsed < period ==> periods_completed(period, elapsed, delta) <= 1,
{
    let x = (elapsed + delta) as int;
    let p = period as int;
    lemma_fundamental_div_mod(x, p);
    assert(x >= p <==> x / p >= 1) by (nonlinear_arith)
        requires
            p > 0,
            x >= 0,
            x == p * (x / p) + x % p,
            0 <= x % p < p,
    ;
    assert(x < 2 * p ==> x / p <= 1) by (nonlinear_arith)
        requires
            p > 0,
            x >= 0,
            x == p * (x / p) + x % p,
            0 <= x % p < p,
    ;
}

/// A repeating timer never fires more often than whole periods pass, and it
/// fires exactly once for each whole period in the time on its clock at the
/// start plus the total frame time, however that time is cut into frames, if
/// and only if no single tick completes more than one period.
pub proof fn lemma_fires_once_per_period(period: nat, elapsed: nat, deltas: Seq<nat>)
    requires
        elapsed < period,
    ensures
        times_fired(period, elapsed, deltas) <= (elapsed + total_time(deltas)) / period,
        times_fired(period, elapsed, deltas) == (elapsed + total_time(deltas)) / period
            <==> one_period_per_tick(period, elapsed, deltas),
{
    lemma_fired_ticks_completed_one(period, elapsed, deltas);
    lemma_frame_rate_independent(period, elapsed, deltas);
}

proof fn lemma_fired_ticks_completed_one(period: nat, elapsed: nat, deltas: Seq<nat>)
    requires
        period > 0,
    ensures
        times_fired(period, elapsed, deltas) <= periods_completed_by_all(period, elapsed, deltas),
        times_fired(period, elapsed, deltas) == periods_completed_by_all(period, elapsed, deltas)
            <==> one_period_per_tick(period, elapsed, deltas),
    decreases deltas.len(),
{
    if deltas.len() > 0 {
        lemma_fires_iff_period_completed(period, elapsed, deltas[0]);
        lemma_fired_ticks_completed_one(
            period,
            elapsed_after(period, elapsed, deltas[0]),
            deltas.skip(1),
        );
    }
}

/// Frames that are no longer than the period never complete more than one
/// period in a tick.
pub proof fn lemma_short_frames_complete_one_period(period: nat, elapsed: nat, deltas: Seq<nat>)
    requires
        elapsed < period,
        forall|i: int| 0 <= i < deltas.len() ==> deltas[i] <= period,
    ensures
        one_period_per_tick(period, elapsed, deltas),
    decreases deltas.len(),
{
    if deltas.len() > 0 {
        lemma_fires_iff_period_completed(period, elapsed, deltas[0]);
        let rest = deltas.skip(1);
        assert forall|i: int| 0 <= i < rest.len() implies rest[i] <= period by {
            assert(rest[i] == deltas[i + 1]);
        }
        lemma_short_frames_complete_one_period(
            period,
            elapsed_after(period, elapsed, deltas[0]),
            rest,
        );
    }
}

} // verus!
