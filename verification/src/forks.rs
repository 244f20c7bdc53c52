//! Timestamp-keyed fork activation: the chain configuration the assembler
//! consults.
//!
//! Each fork is an independent gate, keyed by an optional activation
//! timestamp; a gate with no timestamp never activates. Activation is
//! monotonic in time: once a gate is open at some timestamp it is open at
//! every later one.

use vstd::prelude::*;

verus! {

/// Whether a gate with activation time `activation` is open at `ts`.
pub open spec fn active_at(activation: Option<u64>, ts: u64) -> bool {
    match activation {
        Option::Some(a) => a <= ts,
        Option::None => false,
    }
}

/// Activation timestamps of the forks the provider evaluates.
///
/// `shanghai`, `cancun` and `prague` gate header fields; `regolith` and
/// `canyon` gate the rollup's receipt-root encoding rule. On rollup chains
/// `canyon` coincides with `shanghai`, but nothing here relies on that.
pub struct ChainForks {
    pub shanghai: Option<u64>,
    pub cancun: Option<u64>,
    pub prague: Option<u64>,
    pub regolith: Option<u64>,
    pub canyon: Option<u64>,
}

/// Whether a gate with activation time `activation` is open at `ts`.
pub fn fork_active(activation: &Option<u64>, ts: u64) -> (r: bool)
    ensures
        r == active_at(*activation, ts),
{
    match activation {
        Option::Some(a) => *a <= ts,
        Option::None => false,
    }
}

impl ChainForks {
    pub fn is_shanghai_active_at(&self, ts: u64) -> (r: bool)
        ensures
            r == active_at(self.shanghai, ts),
    {
        fork_active(&self.shanghai, ts)
    }

    pub fn is_cancun_active_at(&self, ts: u64) -> (r: bool)
        ensures
            r == active_at(self.cancun, ts),
    {
        fork_active(&self.cancun, ts)
    }

    pub fn is_prague_active_at(&self, ts: u64) -> (r: bool)
        ensures
            r == active_at(self.prague, ts),
    {
        fork_active(&self.prague, ts)
    }

    pub fn is_regolith_active_at(&self, ts: u64) -> (r: bool)
        ensures
            r == active_at(self.regolith, ts),
    {
        fork_active(&self.regolith, ts)
    }

    pub fn is_canyon_active_at(&self, ts: u64) -> (r: bool)
        ensures
            r == active_at(self.canyon, ts),
    {
        fork_active(&self.canyon, ts)
    }
}

/// Fork activation is monotonic in time: a gate open at `t1` is open at
/// every `t2 >= t1`.
pub proof fn lemma_activation_monotonic(activation: Option<u64>, t1: u64, t2: u64)
    requires
        t1 <= t2,
        active_at(activation, t1),
    ensures
        active_at(activation, t2),
{
}

} // verus!
