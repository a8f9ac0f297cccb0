//! The periodic runner. A timer hands in ticks; each tick stands for one
//! cycle. A tick that arrives while a cycle runs is queued, and its cycle
//! begins once the running one has finished: cycles never overlap.

use vstd::prelude::*;

verus! {

/// What happens to a runner.
#[derive(Clone, Copy, Debug, PartialEq, Eq, Structural)]
pub enum Signal {
    /// The timer fired.
    Tick,
    /// The caller asks whether to begin a cycle.
    Begin,
    /// The cycle that was begun last is over.
    Finish,
}

/// `pending` counts the ticks whose cycle has not begun yet.
#[derive(Clone, Copy, Debug, PartialEq, Eq, Structural)]
pub struct Runner {
    pub pending: u64,
    pub running: bool,
}

/// A cycle begins on `signal`: the caller asks, none runs, and a tick waits.
pub open spec fn begins(r: Runner, signal: Signal) -> bool {
    signal == Signal::Begin && !r.running && r.pending > 0
}

/// The runner after `signal`. A tick beyond what the counter holds is lost.
pub open spec fn after(r: Runner, signal: Signal) -> Runner {
    match signal {
        Signal::Tick => if r.pending < u64::MAX {
            Runner { pending: (r.pending + 1) as u64, running: r.running }
        } else {
            r
        },
        Signal::Begin => if begins(r, signal) {
            Runner { pending: (r.pending - 1) as u64, running: true }
        } else {
            r
        },
        Signal::Finish => Runner { pending: r.pending, running: false },
    }
}

/// The runner after a sequence of signals.
pub open spec fn after_all(r: Runner, signals: Seq<Signal>) -> Runner
    decreases signals.len(),
{
    if signals.len() == 0 {
        r
    } else {
        after(after_all(r, signals.drop_last()), signals.last())
    }
}

/// How many of the signals are ticks.
pub open spec fn ticks(signals: Seq<Signal>) -> nat
    decreases signals.len(),
{
    if signals.len() == 0 {
        0
    } else {
        ticks(signals.drop_last()) + if signals.last() == Signal::Tick {
            1nat
        } else {
            0nat
        }
    }
}

/// How many cycles begin over the signals.
pub open spec fn cycles_begun(r: Runner, signals: Seq<Signal>) -> nat
    decreases signals.len(),
{
    if signals.len() == 0 {
        0
    } else {
        cycles_begun(r, signals.drop_last()) + if begins(
            after_all(r, signals.drop_last()),
            signals.last(),
        ) {
            1nat
        } else {
            0nat
        }
    }
}

/// How many signals end a cycle that runs.
pub open spec fn cycles_finished(r: Runner, signals: Seq<Signal>) -> nat
    decreases signals.len(),
{
    if signals.len() == 0 {
        0
    } else {
        cycles_finished(r, signals.drop_last()) + if signals.last() == Signal::Finish && after_all(
            r,
            signals.drop_last(),
        ).running {
            1nat
        } else {
            0nat
        }
    }
}

/// One round of the timer: a tick, the cycle that it stands for, and the
/// cycle's end.
pub open spec fn rounds(n: nat) -> Seq<Signal>
    decreases n,
{
    if n == 0 {
        Seq::empty()
    } else {
        rounds((n - 1) as nat).push(Signal::Tick).push(Signal::Begin).push(Signal::Finish)
    }
}

impl Runner {
    /// A runner at rest: nothing runs, no tick waits.
    pub fn new() -> (r: Runner)
        ensures
            r == (Runner { pending: 0, running: false }),
    {
        Runner { pending: 0, running: false }
    }

    /// The timer fired. Returns whether the tick was counted.
    pub fn tick(&mut self) -> (counted: bool)
        ensures
            *final(self) == after(*old(self), Signal::Tick),
            counted == (old(self).pending < u64::MAX),
    {
        if self.pending < u64::MAX {
            self.pending = self.pending + 1;
            true
        } else {
            false
        }
    }

    /// Asks whether to begin a cycle now. On `true` the caller runs one
    /// cycle and calls `finish` when it is over.
    pub fn begin(&mut self) -> (go: bool)
        ensures
            *final(self) == after(*old(self), Signal::Begin),
            go == begins(*old(self), Signal::Begin),
    {
        if !self.running && self.pending > 0 {
            self.pending = self.pending - 1;
            self.running = true;
            true
        } else {
            false
        }
    }

    /// The cycle that was begun last is over.
    pub fn finish(&mut self)
        ensures
            *final(self) == after(*old(self), Signal::Finish),
    {
        self.running = false;
    }
}

/// A cycle begins only while none runs, and runs from then on.
pub proof fn lemma_begin_never_overlaps(r: Runner, signal: Signal)
    requires
        begins(r, signal),
    ensures
        !r.running,
        after(r, signal).running,
        !begins(after(r, signal), Signal::Begin),
{
}

/// Whatever the signals, as long as no tick is lost: each tick has a cycle
/// that has begun or still waits, and at most one cycle is under way.
pub proof fn lemma_every_tick_has_its_cycle(r: Runner, signals: Seq<Signal>)
    requires
        r.pending + ticks(signals) <= u64::MAX,
    ensures
        r.pending + ticks(signals) == cycles_begun(r, signals) + after_all(r, signals).pending,
        cycles_begun(r, signals) + (if r.running { 1nat } else { 0nat }) == cycles_finished(
            r,
            signals,
        ) + (if after_all(r, signals).running { 1nat } else { 0nat }),
    decreases signals.len(),
{
    if signals.len() > 0 {
        lemma_every_tick_has_its_cycle(r, signals.drop_last());
    }
}

/// Over `n` rounds of the timer a runner at rest begins exactly `n` cycles,
/// finishes each, and is at rest again.
pub proof fn lemma_rounds_run_once_each(n: nat)
    ensures
        ticks(rounds(n)) == n,
        cycles_begun(Runner { pending: 0, running: false }, rounds(n)) == n,
        cycles_finished(Runner { pending: 0, running: false }, rounds(n)) == n,
        after_all(Runner { pending: 0, running: false }, rounds(n)) == (Runner {
            pending: 0,
            running: false,
        }),
    decreases n,
{
    let rest = Runner { pending: 0, running: false };
    if n > 0 {
        lemma_rounds_run_once_each((n - 1) as nat);
        let s0 = rounds((n - 1) as nat);
        let s1 = s0.push(Signal::Tick);
        let s2 = s1.push(Signal::Begin);
        let s3 = s2.push(Signal::Finish);
        assert(s1.drop_last() =~= s0);
        assert(s2.drop_last() =~= s1);
        assert(s3.drop_last() =~= s2);
        assert(after_all(rest, s1) == (Runner { pending: 1, running: false }));
        assert(after_all(rest, s2) == (Runner { pending: 0, running: true }));
        assert(after_all(rest, s3) == rest);
        assert(ticks(s1) == n);
        assert(ticks(s2) == n);
        assert(cycles_begun(rest, s1) == n - 1);
        assert(cycles_begun(rest, s2) == n);
        assert(cycles_finished(rest, s1) == n - 1);
        assert(cycles_finished(rest, s2) == n - 1);
    }
}

} // verus!
