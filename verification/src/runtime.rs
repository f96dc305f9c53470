//! Events of the bytecode-execution layer.
//!
//! Each event owns its payload: a listener may keep what it was handed, and
//! nothing in an event refers back into the emitting frame.

use vstd::prelude::*;

pub use crate::tracing::EventListener;

use evm_core::Capture;
use evm_core::ExitReason;
use evm_core::Memory;
use evm_core::Opcode;
use evm_core::Stack;
use evm_core::Trap;
use evm_runtime::Context;
use primitive_types::H160;
use primitive_types::H256;

verus! {

/// One event per instrumentation point of the bytecode-execution layer.
pub enum Event {
    Step {
        context: Context,
        opcode: Opcode,
        position: Result<usize, ExitReason>,
        stack: Stack,
        memory: Memory,
    },
    StepResult { result: Result<(), Capture<ExitReason, Trap>>, return_value: Vec<u8> },
    SLoad { address: H160, index: H256, value: H256 },
    SStore { address: H160, index: H256, value: H256 },
}

} // verus!
