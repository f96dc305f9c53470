//! Events of the gas-accounting layer.

use vstd::prelude::*;

pub use crate::tracing::EventListener;

verus! {

/// Point-in-time gas bookkeeping of the gas-accounting layer.
///
/// Intended invariant: `used_gas + memory_gas <= gas_limit`. The invariant is
/// demanded (as a precondition) wherever the remaining gas is computed, so the
/// subtraction in [`Snapshot::gas`] can never underflow; callers that build a
/// snapshot from untrusted numbers check [`Snapshot::wf`] first.
#[derive(Debug, Clone, Copy, PartialEq, Eq, Structural)]
pub struct Snapshot {
    pub gas_limit: u64,
    pub used_gas: u64,
    pub memory_gas: u64,
}

impl Snapshot {
    /// The intended invariant: the gas already accounted for does not exceed
    /// the limit.
    pub open spec fn wf(&self) -> bool {
        self.used_gas + self.memory_gas <= self.gas_limit
    }

    /// Builds a snapshot, establishing the invariant at construction time.
    pub fn new(gas_limit: u64, used_gas: u64, memory_gas: u64) -> (s: Snapshot)
        requires
            used_gas + memory_gas <= gas_limit,
        ensures
            s == (Snapshot { gas_limit, used_gas, memory_gas }),
            s.wf(),
    {
        Snapshot { gas_limit, used_gas, memory_gas }
    }

    /// Remaining gas for a snapshot whose numbers were never checked: `None`
    /// exactly when the invariant is broken, i.e. when the subtraction in
    /// [`Snapshot::gas`] would underflow.
    pub fn checked_gas(&self) -> (g: Option<u64>)
        ensures
            g is Some <==> self.wf(),
            self.wf() ==> g == Some((self.gas_limit - self.used_gas - self.memory_gas) as u64),
    {
        match self.gas_limit.checked_sub(self.used_gas) {
            Some(rest) => rest.checked_sub(self.memory_gas),
            None => None,
        }
    }

    /// Remaining gas: the limit minus everything accounted for so far.
    pub fn gas(&self) -> (g: u64)
        requires
            self.wf(),
        ensures
            g == self.gas_limit - self.used_gas - self.memory_gas,
    {
        self.gas_limit - self.used_gas - self.memory_gas
    }
}

/// One event per accounting operation of the gas-accounting layer.
#[derive(Debug, Clone, Copy, PartialEq, Eq, Structural)]
pub enum Event {
    RecordCost { cost: u64, snapshot: Snapshot },
    RecordRefund { refund: i64, snapshot: Snapshot },
    RecordStipend { stipend: u64, snapshot: Snapshot },
    RecordDynamicCost { gas_cost: u64, memory_gas: u64, gas_refund: i64, snapshot: Snapshot },
    RecordTransaction { cost: u64, snapshot: Snapshot },
}

} // verus!
