//! Events of the call/contract-lifecycle orchestration layer.
//!
//! Each event owns its payload: a listener may keep what it was handed, and
//! nothing in an event refers back into the emitting frame.

use vstd::prelude::*;

pub use crate::tracing::EventListener;

use evm_runtime::Context;
use evm_runtime::CreateScheme;
use evm_runtime::Transfer;
use primitive_types::H160;
use primitive_types::U256;

verus! {

/// One event per instrumentation point of the call-lifecycle layer.
pub enum Event {
    Call {
        code_address: H160,
        transfer: Option<Transfer>,
        input: Vec<u8>,
        target_gas: Option<u64>,
        is_static: bool,
        context: Context,
    },
    Create {
        caller: H160,
        address: H160,
        scheme: CreateScheme,
        value: U256,
        init_code: Vec<u8>,
        target_gas: Option<u64>,
    },
    Suicide { address: H160, target: H160, balance: U256 },
}

} // verus!
