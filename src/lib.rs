//! The decision core of a streaming MACD (moving average convergence
//! divergence) indicator.
//!
//! A MACD composer owns three exponential moving averages: a short one and a
//! long one over the prices, and a signal one over their difference. For each
//! price it feeds the short and long averages, and once enough prices have
//! been seen it also feeds their difference to the signal average and reports
//! the triple (macd line, signal line, histogram).
//!
//! What is decided here, and proved, is when that happens: `MacdGate` counts
//! the prices since construction or the last reset and opens exactly when the
//! count reaches the long period. The averages themselves are real-valued and
//! live with the caller.
use vstd::prelude::*;

verus! {

/// What the composer does with one price.
#[derive(Clone, Copy, Debug, PartialEq, Eq, Structural)]
pub enum Step {
    /// Feed the short and long averages and report no value: not enough
    /// history yet for the long average.
    Warmup,
    /// Feed the short and long averages, feed their difference to the signal
    /// average, and report `[macd, signal, macd - signal]`.
    Emit,
}

/// The abstract state of a gate.
pub struct GateState {
    /// The long period that gates emission; fixed at construction.
    pub long_period: nat,
    /// Prices seen since construction or the last reset, held at `u32::MAX`.
    pub current: nat,
}

/// The state of a gate that has seen no price.
pub open spec fn fresh(long_period: nat) -> GateState {
    GateState { long_period, current: 0 }
}

/// The state after one more price: the count goes up by one and stays at
/// `u32::MAX` once it is there.
pub open spec fn advance(s: GateState) -> GateState {
    GateState {
        long_period: s.long_period,
        current: if s.current >= u32::MAX { u32::MAX as nat } else { s.current + 1 },
    }
}

/// The state after a reset: no price seen, same long period.
pub open spec fn reset_of(s: GateState) -> GateState {
    GateState { long_period: s.long_period, current: 0 }
}

/// What a price does, judged on the state that counts it.
pub open spec fn step_of(s: GateState) -> Step {
    if s.current >= s.long_period {
        Step::Emit
    } else {
        Step::Warmup
    }
}

/// The state reached from `s` after `n` more prices.
pub open spec fn run(s: GateState, n: nat) -> GateState
    decreases n,
{
    if n == 0 {
        s
    } else {
        advance(run(s, (n - 1) as nat))
    }
}

/// From a fresh gate, `n` prices leave the count at `n`, held at `u32::MAX`.
pub proof fn lemma_run_from_fresh(long_period: nat, n: nat)
    ensures
        run(fresh(long_period), n) == (GateState {
            long_period,
            current: if n > u32::MAX { u32::MAX as nat } else { n },
        }),
    decreases n,
{
    if n > 0 {
        lemma_run_from_fresh(long_period, (n - 1) as nat);
    }
}

/// After construction with long period `L`, each of the first `L - 1` prices
/// gives `Warmup`, and the `L`-th and every later one gives `Emit`.
pub proof fn lemma_emits_from_long_period(long_period: nat, n: nat)
    requires
        long_period <= u32::MAX,
        1 <= n,
    ensures
        step_of(run(fresh(long_period), n)) == (if n >= long_period {
            Step::Emit
        } else {
            Step::Warmup
        }),
{
    lemma_run_from_fresh(long_period, n);
}

/// Resetting twice is resetting once, and a reset gate is a fresh gate with
/// the same long period: every later run of prices is decided as it would be
/// from construction.
pub proof fn lemma_reset_restores(s: GateState, n: nat)
    ensures
        reset_of(reset_of(s)) == reset_of(s),
        reset_of(s) == fresh(s.long_period),
        run(reset_of(s), n) == run(fresh(s.long_period), n),
{
}

/// Counts prices and decides, for each one, whether the composer emits.
#[derive(Clone, Copy, Debug, PartialEq, Eq, Structural)]
pub struct MacdGate {
    long_period: u32,
    current: u32,
}

impl View for MacdGate {
    type V = GateState;

    closed spec fn view(&self) -> GateState {
        GateState { long_period: self.long_period as nat, current: self.current as nat }
    }
}

impl MacdGate {
    /// A gate for a composer whose long average has period `long_period`.
    pub fn new(long_period: u32) -> (g: MacdGate)
        ensures
            g@ == fresh(long_period as nat),
    {
        MacdGate { long_period, current: 0 }
    }

    /// Counts one more price and says what the composer does with it: it
    /// emits exactly when the count, this price included, has reached the
    /// long period. The count saturates at `u32::MAX`.
    pub fn next(&mut self) -> (r: Step)
        ensures
            final(self)@ == advance(old(self)@),
            r == step_of(final(self)@),
    {
        self.current = self.current.saturating_add(1);
        if self.current >= self.long_period {
            Step::Emit
        } else {
            Step::Warmup
        }
    }

    /// Forgets every price seen; the long period stays.
    pub fn reset(&mut self)
        ensures
            final(self)@ == reset_of(old(self)@),
    {
        self.current = 0;
    }

    /// The long period that gates emission.
    pub fn long_period(&self) -> (r: u32)
        ensures
            r as nat == self@.long_period,
    {
        self.long_period
    }

    /// Prices seen since construction or the last reset, held at `u32::MAX`.
    pub fn current(&self) -> (r: u32)
        ensures
            r as nat == self@.current,
    {
        self.current
    }
}

} // verus!
