//! The contract deployer system contract: only the genesis-upgrade caller
//! may install bytecode, looked up by hash from the preloaded code store,
//! onto a target account.

use vstd::prelude::*;
use crate::address::{Address, spec_l2_genesis_upgrade_address};
use crate::byteops::{be_val, be_word_to_u32, eq_bytes, is_zero_range};
use crate::gas::Gas;
use crate::result::{InstructionResult, InterpreterResult};
use crate::state::{AccountModel, JournalState, empty_account_model, spec_code_by_hash};
use crate::u256::U256;
use vstd::slice::{slice_subrange, slice_to_vec};

verus! {

/// The largest contract a deployment may install.
pub const MAX_CODE_SIZE: u32 = 0x6000;

/// The selector of the one handled entry point, over
/// `(address, bytes32, uint32, bytes32)`.
pub open spec fn spec_set_evm_bytecode_details_selector() -> Seq<u8> {
    seq![0xf6u8, 0xec, 0xa0, 0xb0]
}

/// Whether a deployment call is acceptable: no value, not static, the
/// genesis-upgrade caller, a full parameter block whose address word has
/// zero upper padding, and a declared code length within the maximum
/// contract size.
pub open spec fn spec_deploy_ok(
    calldata: Seq<u8>,
    call_value: int,
    is_static: bool,
    caller: Seq<u8>,
) -> bool {
    &&& call_value == 0
    &&& calldata.len() >= 4
    &&& calldata.take(4) == spec_set_evm_bytecode_details_selector()
    &&& !is_static
    &&& caller == spec_l2_genesis_upgrade_address()
    &&& calldata.len() >= 132
    &&& (forall|i: int| 4 <= i < 16 ==> calldata[i] == 0)
    &&& be_val(calldata.subrange(68, 100)) <= MAX_CODE_SIZE
}

/// The account the bytecode is installed on.
pub open spec fn spec_deploy_target(calldata: Seq<u8>) -> Seq<u8> {
    calldata.subrange(16, 36)
}

/// The hash the bytecode is looked up under.
pub open spec fn spec_deploy_hash(calldata: Seq<u8>) -> Seq<u8> {
    calldata.subrange(36, 68)
}

/// The declared length of the installed bytecode.
pub open spec fn spec_deploy_len(calldata: Seq<u8>) -> int {
    be_val(calldata.subrange(68, 100))
}

/// Gas left to either outcome: everything but the flat charge.
pub open spec fn spec_deploy_gas(gas_limit: u64) -> int {
    if gas_limit >= 10 {
        gas_limit - 10
    } else {
        0
    }
}

/// Everything the deployer guarantees of one call: how the result is
/// classified, what gas it carries, and what the call installed.
pub open spec fn spec_deployer_post(
    pre: JournalState,
    post: JournalState,
    r: InterpreterResult,
    caller: Seq<u8>,
    is_static: bool,
    gas_limit: u64,
    call_value: int,
    calldata: Seq<u8>,
) -> bool {
    &&& post.logs@ == pre.logs@
    &&& post.snapshot == pre.snapshot
    &&& post.code_store@ == pre.code_store@
    &&& r.output.len() == 0
    &&& r.gas.remaining == spec_deploy_gas(gas_limit)
    &&& (!spec_deploy_ok(calldata, call_value, is_static, caller) ==> r.result is Revert
        && post.accounts_map() == pre.accounts_map())
    &&& (spec_deploy_ok(calldata, call_value, is_static, caller) ==> ({
        let k = spec_deploy_target(calldata);
        let code = spec_code_by_hash(pre.code_store@, spec_deploy_hash(calldata)).unwrap().take(
            spec_deploy_len(calldata),
        );
        let m0 = if pre.accounts_map().contains_key(k) {
            pre.accounts_map()
        } else {
            pre.accounts_map().insert(k, empty_account_model())
        };
        r.result is Return && post.accounts_map() == m0.insert(k,
            AccountModel { touched: true, warm: true, code: Some(code), ..m0[k] })
    }))
}

/// Runs the contract deployer system contract.
///
/// Any caller but the hard-coded genesis-upgrade address is rejected,
/// whatever the calldata; so is a call with value, a static frame, a short
/// parameter block, address padding that is not zero, or a code length over
/// the maximum contract size. An acceptable call installs the first
/// `declared length` bytes of the bytecode preloaded under the given hash
/// on the target account, marking it touched and warm.
pub fn deployer_precompile_call(
    state: &mut JournalState,
    caller: &Address,
    is_static: bool,
    gas_limit: u64,
    call_value: &U256,
    calldata: &[u8],
) -> (r: InterpreterResult)
    requires
        old(state).wf(),
        caller@.len() == 20,
        spec_deploy_ok(calldata@, call_value.as_nat(), is_static, caller@) ==> spec_code_by_hash(
            old(state).code_store@,
            spec_deploy_hash(calldata@),
        ) is Some && spec_code_by_hash(old(state).code_store@, spec_deploy_hash(calldata@)).unwrap().len()
            >= spec_deploy_len(calldata@),
    ensures
        final(state).wf(),
        r.gas.wf(),
        spec_deployer_post(*old(state), *final(state), r, caller@, is_static, gas_limit,
            call_value.as_nat(), calldata@),
{
    let revert_gas = if gas_limit >= 10 {
        gas_limit - 10
    } else {
        0
    };

    if !call_value.is_zero() {
        return InterpreterResult::new(InstructionResult::Revert, Vec::new(), Gas::new(revert_gas));
    }
    if calldata.len() < 4 {
        return InterpreterResult::new(InstructionResult::Revert, Vec::new(), Gas::new(revert_gas));
    }
    let selector = slice_subrange(calldata, 0, 4);
    let sel_expected: Vec<u8> = vec![0xf6u8, 0xec, 0xa0, 0xb0];
    proof {
        assert(selector@ =~= calldata@.take(4));
        assert(sel_expected@ =~= spec_set_evm_bytecode_details_selector());
    }
    if !eq_bytes(selector, sel_expected.as_slice()) {
        return InterpreterResult::new(InstructionResult::Revert, Vec::new(), Gas::new(revert_gas));
    }
    if is_static {
        return InterpreterResult::new(InstructionResult::Revert, Vec::new(), Gas::new(revert_gas));
    }
    let upgrade_caller = crate::address::l2_genesis_upgrade_address();
    if !eq_bytes(caller.as_slice(), upgrade_caller.as_slice()) {
        return InterpreterResult::new(InstructionResult::Revert, Vec::new(), Gas::new(revert_gas));
    }
    if calldata.len() < 132 {
        return InterpreterResult::new(InstructionResult::Revert, Vec::new(), Gas::new(revert_gas));
    }
    // The upper 12 bytes of the address word must be zero.
    if !is_zero_range(calldata, 4, 16) {
        return InterpreterResult::new(InstructionResult::Revert, Vec::new(), Gas::new(revert_gas));
    }
    let target = Address::from_slice(slice_subrange(calldata, 16, 36));
    let bytecode_hash = slice_subrange(calldata, 36, 68);
    let length_word = slice_subrange(calldata, 68, 100);
    proof {
        assert(length_word@ =~= calldata@.subrange(68, 100));
        assert(bytecode_hash@ =~= spec_deploy_hash(calldata@));
        assert(target@ =~= spec_deploy_target(calldata@));
    }
    let bytecode_length = match be_word_to_u32(length_word) {
        Some(l) => l,
        None => {
            return InterpreterResult::new(InstructionResult::Revert, Vec::new(),
                Gas::new(revert_gas));
        },
    };
    // The fourth parameter, the observable bytecode hash, is not consulted.

    // EIP-158: reject code longer than the maximum contract size.
    if bytecode_length > MAX_CODE_SIZE {
        return InterpreterResult::new(InstructionResult::Revert, Vec::new(), Gas::new(revert_gas));
    }
    proof {
        assert(spec_deploy_ok(calldata@, call_value.as_nat(), is_static, caller@));
    }

    let bytecode = match state.code_by_hash(bytecode_hash) {
        Some(c) => c,
        None => {
            // Unreachable: the code is preloaded for every deployment call.
            return InterpreterResult::new(InstructionResult::Revert, Vec::new(),
                Gas::new(revert_gas));
        },
    };
    let bytecode_padded = slice_to_vec(slice_subrange(bytecode.as_slice(), 0,
        bytecode_length as usize));
    state.load_account(&target);
    state.touch_account(&target);
    state.warm_account(&target);
    state.set_code(&target, bytecode_padded);
    proof {
        let k = spec_deploy_target(calldata@);
        let code = spec_code_by_hash(old(state).code_store@, spec_deploy_hash(calldata@)).unwrap()
            .take(spec_deploy_len(calldata@));
        let m0 = if old(state).accounts_map().contains_key(k) {
            old(state).accounts_map()
        } else {
            old(state).accounts_map().insert(k, empty_account_model())
        };
        assert(state.accounts_map() =~= m0.insert(k,
            AccountModel { touched: true, warm: true, code: Some(code), ..m0[k] }));
    }
    InterpreterResult::new(InstructionResult::Return, Vec::new(), Gas::new(revert_gas))
}

} // verus!
