//! Outcome types: the result of one interpreted frame, and the final result
//! of a whole transaction.

use vstd::prelude::*;
use crate::gas::Gas;

verus! {

/// How a frame finished.
#[derive(Clone, Copy, Debug, PartialEq, Eq, Structural)]
pub enum InstructionResult {
    /// Finished with return data.
    Return,
    /// Finished without return data.
    Stop,
    /// Reverted; state changes of the frame are undone by the engine.
    Revert,
    /// Ran out of gas.
    OutOfGas,
}

impl InstructionResult {
    /// Whether the frame succeeded.
    pub open spec fn is_ok(self) -> bool {
        self is Return || self is Stop
    }
}

/// The result of one interpreted or precompiled frame.
#[derive(Debug)]
pub struct InterpreterResult {
    pub result: InstructionResult,
    pub output: Vec<u8>,
    pub gas: Gas,
}

impl InterpreterResult {
    pub open spec fn wf(self) -> bool {
        self.gas.wf()
    }

    pub fn new(result: InstructionResult, output: Vec<u8>, gas: Gas) -> (r: InterpreterResult)
        ensures
            r.result == result,
            r.output@ == output@,
            r.gas == gas,
    {
        InterpreterResult { result, output, gas }
    }
}

/// The engine's standard terminal classifications beyond success and revert.
#[derive(Clone, Copy, Debug, PartialEq, Eq, Structural)]
pub enum HaltReason {
    OutOfGas,
}

/// The chain's halt taxonomy: the standard one, or the marker for a
/// cross-layer transaction whose execution failed but whose mint still
/// landed.
#[derive(Clone, Copy, Debug, PartialEq, Eq, Structural)]
pub enum ZkHaltReason {
    /// A standard halt.
    Base(HaltReason),
    /// A cross-layer transaction failed; its mint and nonce bump persist.
    FailedDeposit,
}

impl From<HaltReason> for ZkHaltReason {
    fn from(value: HaltReason) -> (r: ZkHaltReason) {
        ZkHaltReason::Base(value)
    }
}

impl vstd::std_specs::convert::FromSpecImpl<HaltReason> for ZkHaltReason {
    open spec fn obeys_from_spec() -> bool {
        true
    }

    open spec fn from_spec(value: HaltReason) -> ZkHaltReason {
        ZkHaltReason::Base(value)
    }
}

/// The final result of one transaction.
#[derive(Debug)]
pub enum ExecutionResult {
    /// The transaction succeeded.
    Success { gas_used: u64, output: Vec<u8> },
    /// The transaction reverted; gas was charged.
    Revert { gas_used: u64, output: Vec<u8> },
    /// The transaction halted for `reason`.
    Halt { reason: ZkHaltReason, gas_used: u64 },
}

impl ExecutionResult {
    /// The gas the transaction was charged.
    pub open spec fn spec_gas_used(self) -> u64 {
        match self {
            ExecutionResult::Success { gas_used, .. } => gas_used,
            ExecutionResult::Revert { gas_used, .. } => gas_used,
            ExecutionResult::Halt { gas_used, .. } => gas_used,
        }
    }
}

} // verus!
