//! Declarations of the interpreter-stack types that events carry.
//!
//! The observation mechanism never reads these values: it only moves them
//! from the emitting layer into the listener. Each declaration lets the
//! outside type stand, opaquely, in event fields.

use vstd::prelude::*;

verus! {

/// Relies on primitive_types::H160, a 160-bit account address, carried as an
/// opaque payload.
#[verifier::external_type_specification]
#[verifier::external_body]
pub struct ExH160(primitive_types::H160);

/// Relies on primitive_types::H256, a 256-bit hash or storage key, carried as
/// an opaque payload.
#[verifier::external_type_specification]
#[verifier::external_body]
pub struct ExH256(primitive_types::H256);

/// Relies on primitive_types::U256, a 256-bit unsigned integer, carried as an
/// opaque payload.
#[verifier::external_type_specification]
#[verifier::external_body]
pub struct ExU256(primitive_types::U256);

/// Relies on evm_core::Opcode, one interpreter instruction, carried as an
/// opaque payload.
#[verifier::external_type_specification]
#[verifier::external_body]
pub struct ExOpcode(evm_core::Opcode);

/// Relies on evm_core::Stack, the operand stack of the executing machine,
/// carried as an opaque payload.
#[verifier::external_type_specification]
#[verifier::external_body]
pub struct ExStack(evm_core::Stack);

/// Relies on evm_core::Memory, the memory region of the executing machine,
/// carried as an opaque payload.
#[verifier::external_type_specification]
#[verifier::external_body]
pub struct ExMemory(evm_core::Memory);

/// Relies on evm_core::ExitReason, why an execution stopped, carried as an
/// opaque payload.
#[verifier::external_type_specification]
#[verifier::external_body]
pub struct ExExitReason(evm_core::ExitReason);

/// Relies on evm_core::Capture, an execution outcome that either exited or
/// trapped, carried as an opaque payload.
#[verifier::external_type_specification]
#[verifier::external_body]
#[verifier::reject_recursive_types(E)]
#[verifier::reject_recursive_types(T)]
pub struct ExCapture<E, T>(evm_core::Capture<E, T>);

/// Relies on evm_runtime::Context, the execution context (address, caller,
/// apparent value) of the running frame, carried as an opaque payload.
#[verifier::external_type_specification]
#[verifier::external_body]
pub struct ExContext(evm_runtime::Context);

/// Relies on evm_runtime::CreateScheme, how a contract address is derived,
/// carried as an opaque payload.
#[verifier::external_type_specification]
#[verifier::external_body]
pub struct ExCreateScheme(evm_runtime::CreateScheme);

/// Relies on evm_runtime::Transfer, a value transfer between two addresses,
/// carried as an opaque payload.
#[verifier::external_type_specification]
#[verifier::external_body]
pub struct ExTransfer(evm_runtime::Transfer);

} // verus!
