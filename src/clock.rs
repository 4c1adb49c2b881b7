use vstd::arithmetic::div_mod::lemma_fundamental_div_mod_converse;
use vstd::prelude::*;

verus! {

/// Period of the game tick, in nanoseconds (half a second).
pub const TICK_PERIOD_NANOS: u64 = 500_000_000;

/// A repeating timer driven by frame deltas. Time past a finished period is
/// carried into the next one, so the timer never drifts.
#[derive(Clone, Copy, Debug)]
pub struct GameClock {
    /// Length of one period, in nanoseconds.
    pub period: u64,
    /// Time accumulated into the current period.
    pub elapsed: u64,
    /// Whether the last `tick` completed at least one period.
    pub just_finished: bool,
    /// How many periods the last `tick` completed.
    pub times_finished: u64,
}

impl GameClock {
    pub open spec fn wf(self) -> bool {
        0 < self.period && self.elapsed < self.period
    }

    /// The clock after a tick of `delta` nanoseconds: whole periods of the
    /// accumulated time are counted, the remainder carried.
    pub open spec fn ticked(self, delta: nat) -> GameClock {
        let total = self.elapsed + delta;
        GameClock {
            period: self.period,
            elapsed: (total % (self.period as int)) as u64,
            just_finished: total >= self.period,
            times_finished: (total / (self.period as int)) as u64,
        }
    }

    /// A fresh clock with the given period.
    pub fn new(period: u64) -> (r: GameClock)
        requires
            period > 0,
        ensures
            r.wf(),
            r.period == period,
            r.elapsed == 0,
            !r.just_finished,
            r.times_finished == 0,
    {
        GameClock { period, elapsed: 0, just_finished: false, times_finished: 0 }
    }

    /// The clock the game runs on: a period of half a second.
    pub fn game_tick() -> (r: GameClock)
        ensures
            r.wf(),
            r == GameClock::new_spec(TICK_PERIOD_NANOS),
    {
        GameClock::new(TICK_PERIOD_NANOS)
    }

    pub open spec fn new_spec(period: u64) -> GameClock {
        GameClock { period, elapsed: 0, just_finished: false, times_finished: 0 }
    }

    /// Advances the clock by `delta` nanoseconds.
    pub fn tick(&mut self, delta: u64)
        requires
            old(self).wf(),
        ensures
            final(self).wf(),
            *final(self) == old(self).ticked(delta as nat),
    {
        let room = self.period - self.elapsed;
        if delta < room {
            self.elapsed = self.elapsed + delta;
            self.just_finished = false;
            self.times_finished = 0;
            proof {
                lemma_fundamental_div_mod_converse(
                    self.elapsed as int,
                    self.period as int,
                    0,
                    self.elapsed as int,
                );
            }
        } else {
            let over = delta - room;
            let q = over / self.period;
            let rem = over % self.period;
            proof {
                let p = self.period as int;
                let total = old(self).elapsed + delta;
                assert(over == q * p + rem) by (nonlinear_arith)
                    requires
                        p > 0,
                        q == over as int / p,
                        rem == over as int % p,
                ;
                assert(total == (q + 1) * p + rem) by (nonlinear_arith)
                    requires
                        total == over + p,
                        over == q * p + rem,
                ;
                lemma_fundamental_div_mod_converse(total, p, q + 1, rem as int);
                assert(q + 1 <= u64::MAX) by (nonlinear_arith)
                    requires
                        p >= 1,
                        q == over as int / p,
                        0 <= over < u64::MAX,
                ;
            }
            self.elapsed = rem;
            self.just_finished = true;
            self.times_finished = q + 1;
        }
    }

    /// Whether the last tick completed a period.
    pub fn finished(&self) -> (r: bool)
        ensures
            r == self.just_finished,
    {
        self.just_finished
    }
}

/// The clock after ticking by each delta in turn.
pub open spec fn run(c: GameClock, deltas: Seq<u64>) -> GameClock
    decreases deltas.len(),
{
    if deltas.len() == 0 {
        c
    } else {
        run(c, deltas.drop_last()).ticked(deltas.last() as nat)
    }
}

/// Whole periods completed over all the ticks.
pub open spec fn periods_completed(c: GameClock, deltas: Seq<u64>) -> nat
    decreases deltas.len(),
{
    if deltas.len() == 0 {
        0
    } else {
        periods_completed(c, deltas.drop_last()) + run(c, deltas).times_finished as nat
    }
}

/// Ticks after which the clock reported "just finished".
pub open spec fn finish_events(c: GameClock, deltas: Seq<u64>) -> nat
    decreases deltas.len(),
{
    if deltas.len() == 0 {
        0
    } else {
        finish_events(c, deltas.drop_last()) + if run(c, deltas).just_finished {
            1nat
        } else {
            0nat
        }
    }
}

/// Sum of the deltas.
pub open spec fn total_time(deltas: Seq<u64>) -> nat
    decreases deltas.len(),
{
    if deltas.len() == 0 {
        0
    } else {
        total_time(deltas.drop_last()) + deltas.last() as nat
    }
}

proof fn lemma_tick_count(c: GameClock, delta: u64)
    requires
        c.wf(),
    ensures
        c.ticked(delta as nat).wf(),
        c.ticked(delta as nat).elapsed as int == (c.elapsed + delta) % (c.period as int),
        c.ticked(delta as nat).times_finished as int == (c.elapsed + delta) / (c.period as int),
        (c.elapsed + delta) == c.ticked(delta as nat).times_finished * (c.period as int)
            + c.ticked(delta as nat).elapsed,
        c.ticked(delta as nat).just_finished <==> c.ticked(delta as nat).times_finished >= 1,
{
    let p = c.period as int;
    let total = c.elapsed + delta;
    let q = total / p;
    let r = total % p;
    assert(total == q * p + r && 0 <= r < p) by (nonlinear_arith)
        requires
            p > 0,
            q == total / p,
            r == total % p,
    ;
    assert(q <= u64::MAX) by (nonlinear_arith)
        requires
            p > 0,
            total == q * p + r,
            0 <= r,
            total < u64::MAX + p,
    ;
    assert(q >= 1 <==> total >= p) by (nonlinear_arith)
        requires
            p > 0,
            total == q * p + r,
            0 <= r < p,
    ;
}

/// The clock never drifts: after any run of ticks, the periods it counted
/// times the period, plus what it holds, is exactly the time it was given.
/// It reports "just finished" on at least one tick whenever a period was
/// completed and never more often than periods were completed; so from a
/// fresh clock, ticks summing to one period give exactly one such report,
/// and ticks summing to less give none. When every delta is shorter than a
/// period, each tick completes at most one period, so the reports are exactly
/// the periods completed.
pub proof fn lemma_clock_no_drift(c: GameClock, deltas: Seq<u64>)
    requires
        c.wf(),
    ensures
        run(c, deltas).wf(),
        run(c, deltas).period == c.period,
        periods_completed(c, deltas) * c.period + run(c, deltas).elapsed == c.elapsed
            + total_time(deltas),
        finish_events(c, deltas) <= periods_completed(c, deltas),
        periods_completed(c, deltas) >= 1 ==> finish_events(c, deltas) >= 1,
        c.elapsed == 0 && total_time(deltas) == c.period ==> finish_events(c, deltas) == 1,
        c.elapsed + total_time(deltas) < c.period ==> finish_events(c, deltas) == 0,
        (forall|i: int| 0 <= i < deltas.len() ==> deltas[i] < c.period) ==> finish_events(c, deltas)
            == periods_completed(c, deltas),
    decreases deltas.len(),
{
    let p = c.period as int;
    if deltas.len() > 0 {
        let prev = deltas.drop_last();
        lemma_clock_no_drift(c, prev);
        let before = run(c, prev);
        lemma_tick_count(before, deltas.last());
        let n = periods_completed(c, prev);
        let t = run(c, deltas).times_finished as nat;
        assert((n + t) * p == n * p + t * p) by (nonlinear_arith);
        if forall|i: int| 0 <= i < deltas.len() ==> deltas[i] < c.period {
            assert forall|i: int| 0 <= i < prev.len() implies prev[i] < c.period by {
                assert(prev[i] == deltas[i]);
            }
            assert(deltas.last() == deltas[deltas.len() - 1]);
            let total = before.elapsed + deltas.last();
            assert(t <= 1) by (nonlinear_arith)
                requires
                    p > 0,
                    total < 2 * p,
                    t == total / p,
            ;
        }
    }
    let n = periods_completed(c, deltas);
    let e = run(c, deltas).elapsed as int;
    if c.elapsed == 0 && total_time(deltas) == c.period {
        assert(n == 1) by (nonlinear_arith)
            requires
                p > 0,
                n * p + e == p,
                0 <= e < p,
                n >= 0,
        ;
    }
    if c.elapsed + total_time(deltas) < c.period {
        assert(n == 0) by (nonlinear_arith)
            requires
                p > 0,
                n * p + e < p,
                0 <= e,
                n >= 0,
        ;
    }
}

} // verus!
