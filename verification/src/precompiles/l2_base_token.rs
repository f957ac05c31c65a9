//! The base-token withdrawal bridge: debits the withdrawn value from the
//! token holder account and builds the fixed-layout outbound withdrawal
//! message, in its plain and its with-message form.

use vstd::prelude::*;
use crate::address::{Address, l2_base_token_address, spec_l2_base_token_address};
use crate::byteops::{be_val, be_word_to_u32, eq_bytes, is_zero_range, push_bytes, push_zeros,
    lemma_be_val_append, lemma_pow256_values, lemma_be_val_zero};
use crate::gas::Gas;
use crate::result::{InstructionResult, InterpreterResult};
use crate::state::{AccountModel, JournalState, spec_loaded_map};
use crate::u256::U256;
use vstd::slice::slice_subrange;

verus! {

/// The selector of `withdraw(address)`.
pub open spec fn spec_withdraw_selector() -> Seq<u8> {
    seq![0x51u8, 0xcf, 0xf8, 0xd9]
}

/// The selector of `withdrawWithMessage(address,bytes)`.
pub open spec fn spec_withdraw_with_message_selector() -> Seq<u8> {
    seq![0x84u8, 0xbc, 0x3e, 0xb0]
}

/// The selector of the L1 mailbox's `finalizeEthWithdrawal` entry point.
pub open spec fn spec_finalize_eth_withdrawal_selector() -> Seq<u8> {
    seq![0x6cu8, 0x09, 0x60, 0xf9]
}

/// Gas left to a reverting call: everything but the flat charge.
pub open spec fn spec_revert_gas(gas_limit: u64) -> int {
    if gas_limit >= 10 {
        gas_limit - 10
    } else {
        0
    }
}

/// `x` rounded up to a multiple of 32.
pub open spec fn round_up_32(x: int) -> int {
    if x % 32 == 0 {
        x
    } else {
        x + (32 - x % 32)
    }
}

/// The token-holder account after being loaded, touched and warmed.
pub open spec fn spec_token_loaded(m: Map<Seq<u8>, AccountModel>) -> Map<Seq<u8>, AccountModel> {
    let k = spec_l2_base_token_address();
    let m0 = spec_loaded_map(m, k);
    m0.insert(k, AccountModel { touched: true, warm: true, ..m0[k] })
}

/// Whether a `withdraw(address)` call is acceptable: the right selector,
/// not static, a full address word whose upper 12 bytes are zero.
pub open spec fn spec_withdraw_ok(calldata: Seq<u8>, is_static: bool) -> bool {
    &&& calldata.len() >= 4
    &&& calldata.take(4) == spec_withdraw_selector()
    &&& calldata.len() <= 0xFFFF_FFFFint
    &&& !is_static
    &&& calldata.len() >= 36
    &&& (forall|i: int| 4 <= i < 16 ==> calldata[i] == 0)
}

/// Whether a `withdrawWithMessage(address,bytes)` call is acceptable: the
/// right selector, not static, the nested `bytes` offset, length and bounds
/// all inside the supplied calldata, and an address word whose upper 12
/// bytes are zero.
pub open spec fn spec_withdraw_with_message_ok(calldata: Seq<u8>, is_static: bool) -> bool {
    &&& calldata.len() >= 4
    &&& calldata.take(4) == spec_withdraw_with_message_selector()
    &&& calldata.len() <= 0xFFFF_FFFFint
    &&& !is_static
    &&& calldata.len() >= 68
    &&& be_val(calldata.subrange(36, 68)) + 36 <= 0xFFFF_FFFFint
    &&& calldata.len() >= be_val(calldata.subrange(36, 68)) + 36
    &&& spec_wm_length(calldata) + be_val(calldata.subrange(36, 68)) + 36 <= 0xFFFF_FFFFint
    &&& calldata.len() >= be_val(calldata.subrange(36, 68)) + 36 + spec_wm_length(calldata)
    &&& (forall|i: int| 4 <= i < 16 ==> calldata[i] == 0)
}

/// The declared length of the nested `bytes` parameter.
pub open spec fn spec_wm_length(calldata: Seq<u8>) -> int {
    let off = be_val(calldata.subrange(36, 68));
    be_val(calldata.subrange(off + 4, off + 36))
}

/// Builds the outbound `finalizeEthWithdrawal` message of a plain
/// withdrawal: a 32-byte offset word (32), a 32-byte length word (56), the
/// selector, the receiver and the withdrawn value, zero-padded to 128
/// bytes.
pub fn encode_withdrawal_message(l1_receiver: &[u8], value: &U256) -> (r: Vec<u8>)
    requires
        l1_receiver@.len() == 20,
    ensures
        r@.len() == 128,
        be_val(r@.take(32)) == 32,
        be_val(r@.subrange(32, 64)) == 56,
        r@.subrange(64, 68) == spec_finalize_eth_withdrawal_selector(),
        r@.subrange(68, 88) == l1_receiver@,
        be_val(r@.subrange(88, 120)) == value.as_nat(),
        forall|i: int| 120 <= i < 128 ==> r@[i] == 0,
{
    let mut out: Vec<u8> = Vec::new();
    push_zeros(&mut out, 31);
    out.push(32);
    push_zeros(&mut out, 31);
    out.push(56);
    let sel: Vec<u8> = vec![0x6cu8, 0x09, 0x60, 0xf9];
    push_bytes(&mut out, sel.as_slice());
    push_bytes(&mut out, l1_receiver);
    let value_bytes = value.to_be_bytes();
    push_bytes(&mut out, value_bytes.as_slice());
    push_zeros(&mut out, 8);
    proof {
        lemma_word_prefix(out@.take(32), 32);
        lemma_word_prefix(out@.subrange(32, 64), 56);
        assert(out@.subrange(64, 68) =~= sel@);
        assert(sel@ =~= spec_finalize_eth_withdrawal_selector());
        assert(out@.subrange(68, 88) =~= l1_receiver@);
        assert(out@.subrange(88, 120) =~= value_bytes@);
    }
    out
}

/// A 32-byte word holding a small value: 31 zero bytes and the value.
proof fn lemma_word_prefix(s: Seq<u8>, v: u8)
    requires
        s.len() == 32,
        forall|i: int| 0 <= i < 31 ==> s[i] == 0,
        s[31] == v,
    ensures
        be_val(s) == v,
{
    assert(s =~= s.take(31) + seq![v]);
    lemma_be_val_append(s.take(31), seq![v]);
    lemma_be_val_zero(s.take(31));
    lemma_pow256_values();
    assert(be_val(seq![v]) == be_val(Seq::<u8>::empty()) * 256 + v);
}

/// Builds the outbound `finalizeEthWithdrawal` message of a withdrawal with
/// message: offset word (32), length word (76 plus the data length), then
/// the packed selector, receiver, value, sender and data, zero-padded to a
/// multiple of 32 bytes.
pub fn encode_withdrawal_with_message(
    l1_receiver: &[u8],
    value: &U256,
    sender: &Address,
    additional_data: &[u8],
) -> (r: Vec<u8>)
    requires
        l1_receiver@.len() == 20,
        sender@.len() == 20,
        additional_data@.len() <= 0xFFFF_FFFFint,
    ensures
        r@.len() == round_up_32(140 + additional_data@.len() as int),
        be_val(r@.take(32)) == 32,
        be_val(r@.subrange(32, 64)) == 76 + additional_data@.len(),
        r@.subrange(64, 68) == spec_finalize_eth_withdrawal_selector(),
        r@.subrange(68, 88) == l1_receiver@,
        be_val(r@.subrange(88, 120)) == value.as_nat(),
        r@.subrange(120, 140) == sender@,
        r@.subrange(140, 140 + additional_data@.len() as int) == additional_data@,
        forall|i: int| 140 + additional_data@.len() <= i < r@.len() ==> r@[i] == 0,
{
    let data_len: u64 = additional_data.len() as u64;
    let message_length: u64 = 76 + data_len;
    let unpadded: u64 = 64 + message_length;
    let padding: u64 = if unpadded % 32 != 0 {
        32 - unpadded % 32
    } else {
        0
    };

    let mut out: Vec<u8> = Vec::new();
    push_zeros(&mut out, 31);
    out.push(32);
    let length_word = U256::from_u64(message_length).to_be_bytes();
    push_bytes(&mut out, length_word.as_slice());
    let sel: Vec<u8> = vec![0x6cu8, 0x09, 0x60, 0xf9];
    push_bytes(&mut out, sel.as_slice());
    push_bytes(&mut out, l1_receiver);
    let value_bytes = value.to_be_bytes();
    push_bytes(&mut out, value_bytes.as_slice());
    push_bytes(&mut out, sender.as_slice());
    push_bytes(&mut out, additional_data);
    push_zeros(&mut out, padding as usize);
    proof {
        lemma_word_prefix(out@.take(32), 32);
        assert(out@.subrange(32, 64) =~= length_word@);
        assert(out@.subrange(64, 68) =~= sel@);
        assert(sel@ =~= spec_finalize_eth_withdrawal_selector());
        assert(out@.subrange(68, 88) =~= l1_receiver@);
        assert(out@.subrange(88, 120) =~= value_bytes@);
        assert(out@.subrange(120, 140) =~= sender@);
        assert(out@.subrange(140, 140 + additional_data@.len() as int) =~= additional_data@);
    }
    out
}

/// Everything the bridge guarantees of one call: how the result is
/// classified, what gas it carries, and what the call did to the
/// token-holder account.
pub open spec fn spec_base_token_post(
    pre: JournalState,
    post: JournalState,
    r: InterpreterResult,
    is_static: bool,
    gas_limit: u64,
    call_value: int,
    calldata: Seq<u8>,
) -> bool {
    let wd = spec_withdraw_ok(calldata, is_static);
    let wm = spec_withdraw_with_message_ok(calldata, is_static);
    let k = spec_l2_base_token_address();
    let m1 = spec_token_loaded(pre.accounts_map());
    let enough = m1[k].balance >= call_value;
    &&& post.logs@ == pre.logs@
    &&& post.snapshot == pre.snapshot
    &&& post.code_store@ == pre.code_store@
    &&& (!wd && !wm ==> r.result is Revert && r.output.len() == 0 && post.accounts_map()
        == pre.accounts_map() && r.gas.remaining == spec_revert_gas(gas_limit))
    &&& ((wd || wm) && !enough ==> r.result is Revert && r.output.len() == 0 && post.accounts_map()
        == m1 && r.gas.remaining == spec_revert_gas(gas_limit))
    &&& ((wd || wm) && enough ==> r.result is Return && r.output.len() == 0 && post.accounts_map()
        == m1.insert(k, AccountModel { balance: m1[k].balance - call_value, ..m1[k] })
        && r.gas.remaining == gas_limit)
}

/// What a withdrawal-with-message payload decodes to under the strict
/// offset/length rules: the receiver, the withdrawn value, the sender, and
/// the additional data — or nothing when the payload breaks the rules.
pub open spec fn spec_decode_withdrawal_with_message(m: Seq<u8>) -> Option<
    (Seq<u8>, int, Seq<u8>, Seq<u8>),
> {
    let len_declared = be_val(m.subrange(32, 64));
    if m.len() >= 64 && be_val(m.take(32)) == 32 && len_declared + 64 <= 0xFFFF_FFFFint && m.len()
        >= 64 + len_declared && len_declared >= 76 {
        Some(
            (
                m.subrange(68, 88),
                be_val(m.subrange(88, 120)),
                m.subrange(120, 140),
                m.subrange(140, 64 + len_declared),
            ),
        )
    } else {
        None
    }
}

/// Decodes a withdrawal-with-message payload under the strict
/// offset/length rules.
pub fn decode_withdrawal_with_message(m: &[u8]) -> (r: Option<(Vec<u8>, U256, Vec<u8>, Vec<u8>)>)
    ensures
        r is Some <==> spec_decode_withdrawal_with_message(m@) is Some,
        r is Some ==> ({
            let (receiver, value, sender, data) = spec_decode_withdrawal_with_message(m@).unwrap();
            &&& r.unwrap().0@ == receiver
            &&& r.unwrap().1.as_nat() == value
            &&& r.unwrap().2@ == sender
            &&& r.unwrap().3@ == data
        }),
{
    if m.len() < 64 {
        return None;
    }
    let offset_word = slice_subrange(m, 0, 32);
    proof {
        assert(offset_word@ =~= m@.take(32));
    }
    let offset = match be_word_to_u32(offset_word) {
        Some(o) => o,
        None => {
            return None;
        },
    };
    if offset != 32 {
        return None;
    }
    let length_word = slice_subrange(m, 32, 64);
    proof {
        assert(length_word@ =~= m@.subrange(32, 64));
    }
    let length = match be_word_to_u32(length_word) {
        Some(l) => l,
        None => {
            return None;
        },
    };
    let end = match length.checked_add(64) {
        Some(e) => e,
        None => {
            return None;
        },
    };
    if m.len() < end as usize {
        return None;
    }
    if length < 76 {
        return None;
    }
    let receiver = vstd::slice::slice_to_vec(slice_subrange(m, 68, 88));
    let value_word = slice_subrange(m, 88, 120);
    let value = U256::from_be_bytes32(value_word);
    let sender = vstd::slice::slice_to_vec(slice_subrange(m, 120, 140));
    let data = vstd::slice::slice_to_vec(slice_subrange(m, 140, end as usize));
    Some((receiver, value, sender, data))
}

/// Round trip: a payload carrying the shape the encoder guarantees decodes,
/// under the same offset/length rules, to exactly the receiver, value,
/// sender and additional data it was built from.
pub proof fn lemma_withdrawal_with_message_round_trip(
    m: Seq<u8>,
    receiver: Seq<u8>,
    value: int,
    sender: Seq<u8>,
    data: Seq<u8>,
)
    requires
        data.len() + 140 <= 0xFFFF_FFFFint,
        m.len() == round_up_32(140 + data.len() as int),
        be_val(m.take(32)) == 32,
        be_val(m.subrange(32, 64)) == 76 + data.len(),
        m.subrange(68, 88) == receiver,
        be_val(m.subrange(88, 120)) == value,
        m.subrange(120, 140) == sender,
        m.subrange(140, 140 + data.len() as int) == data,
    ensures
        spec_decode_withdrawal_with_message(m) == Some((receiver, value, sender, data)),
{
    let x = 140 + data.len() as int;
    assert(m.len() >= x);
    assert(spec_decode_withdrawal_with_message(m) is Some);
}

/// Loads, touches and warms the token-holder account, then debits the call
/// value from it; fails without the debit when the balance is too small.
fn debit_token_account(state: &mut JournalState, call_value: &U256) -> (ok: bool)
    requires
        old(state).wf(),
    ensures
        final(state).wf(),
        final(state).logs@ == old(state).logs@,
        final(state).snapshot == old(state).snapshot,
        final(state).code_store@ == old(state).code_store@,
        ({
            let k = spec_l2_base_token_address();
            let m1 = spec_token_loaded(old(state).accounts_map());
            &&& ok == (m1[k].balance >= call_value.as_nat())
            &&& (ok ==> final(state).accounts_map() == m1.insert(k,
                AccountModel { balance: m1[k].balance - call_value.as_nat(), ..m1[k] }))
            &&& (!ok ==> final(state).accounts_map() == m1)
        }),
{
    let token = l2_base_token_address();
    state.load_account(&token);
    state.touch_account(&token);
    state.warm_account(&token);
    proof {
        assert(state.accounts_map() =~= spec_token_loaded(old(state).accounts_map()));
    }
    let bal = state.balance_of(&token);
    match bal.checked_sub(call_value) {
        Some(nb) => {
            state.set_balance(&token, nb);
            proof {
                let k = spec_l2_base_token_address();
                let m1 = spec_token_loaded(old(state).accounts_map());
                assert(state.accounts_map() =~= m1.insert(k,
                    AccountModel { balance: m1[k].balance - call_value.as_nat(), ..m1[k] }));
            }
            true
        },
        None => false,
    }
}

/// Runs the base-token bridge system contract.
///
/// Both entry points reject static frames and malformed calldata by
/// reverting; an acceptable call debits the withdrawn value from the
/// token-holder account — reverting, with the account loaded and warmed
/// but not debited, when its balance is too small — and builds the
/// outbound withdrawal message.
pub fn l2_base_token_precompile_call(
    state: &mut JournalState,
    caller: &Address,
    is_static: bool,
    gas_limit: u64,
    call_value: &U256,
    calldata: &[u8],
) -> (r: InterpreterResult)
    requires
        old(state).wf(),
        caller@.len() == 20,
    ensures
        final(state).wf(),
        r.gas.wf(),
        spec_base_token_post(*old(state), *final(state), r, is_static, gas_limit,
            call_value.as_nat(), calldata@),
{
    let revert_gas = if gas_limit >= 10 {
        gas_limit - 10
    } else {
        0
    };

    if calldata.len() < 4 {
        return InterpreterResult::new(InstructionResult::Revert, Vec::new(), Gas::new(revert_gas));
    }
    if calldata.len() > 0xFFFF_FFFFusize {
        return InterpreterResult::new(InstructionResult::Revert, Vec::new(), Gas::new(revert_gas));
    }
    let selector = slice_subrange(calldata, 0, 4);
    let wd_sel: Vec<u8> = vec![0x51u8, 0xcf, 0xf8, 0xd9];
    let wm_sel: Vec<u8> = vec![0x84u8, 0xbc, 0x3e, 0xb0];
    proof {
        assert(selector@ =~= calldata@.take(4));
        assert(wd_sel@ =~= spec_withdraw_selector());
        assert(wm_sel@ =~= spec_withdraw_with_message_selector());
    }

    if eq_bytes(selector, wd_sel.as_slice()) {
        if is_static {
            return InterpreterResult::new(InstructionResult::Revert, Vec::new(),
                Gas::new(revert_gas));
        }
        if calldata.len() < 36 {
            return InterpreterResult::new(InstructionResult::Revert, Vec::new(),
                Gas::new(revert_gas));
        }
        // The upper 12 bytes of the address word must be zero.
        if !is_zero_range(calldata, 4, 16) {
            return InterpreterResult::new(InstructionResult::Revert, Vec::new(),
                Gas::new(revert_gas));
        }
        if !debit_token_account(state, call_value) {
            return InterpreterResult::new(InstructionResult::Revert, Vec::new(),
                Gas::new(revert_gas));
        }
        // The outbound mailbox message; its delivery is beyond this engine.
        let receiver = slice_subrange(calldata, 16, 36);
        let _outbound = encode_withdrawal_message(receiver, call_value);
        return InterpreterResult::new(InstructionResult::Return, Vec::new(), Gas::new(gas_limit));
    }

    if eq_bytes(selector, wm_sel.as_slice()) {
        if is_static {
            return InterpreterResult::new(InstructionResult::Revert, Vec::new(),
                Gas::new(revert_gas));
        }
        if calldata.len() < 68 {
            return InterpreterResult::new(InstructionResult::Revert, Vec::new(),
                Gas::new(revert_gas));
        }
        let offset_word = slice_subrange(calldata, 36, 68);
        proof {
            assert(offset_word@ =~= calldata@.subrange(36, 68));
        }
        let message_offset = match be_word_to_u32(offset_word) {
            Some(o) => o,
            None => {
                return InterpreterResult::new(InstructionResult::Revert, Vec::new(),
                    Gas::new(revert_gas));
            },
        };
        let length_encoding_end = match message_offset.checked_add(36) {
            Some(e) => e,
            None => {
                return InterpreterResult::new(InstructionResult::Revert, Vec::new(),
                    Gas::new(revert_gas));
            },
        };
        if calldata.len() < length_encoding_end as usize {
            return InterpreterResult::new(InstructionResult::Revert, Vec::new(),
                Gas::new(revert_gas));
        }
        let length_word = slice_subrange(calldata, length_encoding_end as usize - 32,
            length_encoding_end as usize);
        proof {
            assert(length_word@ =~= calldata@.subrange(message_offset + 4, message_offset + 36));
        }
        let length = match be_word_to_u32(length_word) {
            Some(l) => l,
            None => {
                return InterpreterResult::new(InstructionResult::Revert, Vec::new(),
                    Gas::new(revert_gas));
            },
        };
        let message_end = match length_encoding_end.checked_add(length) {
            Some(e) => e,
            None => {
                return InterpreterResult::new(InstructionResult::Revert, Vec::new(),
                    Gas::new(revert_gas));
            },
        };
        if calldata.len() < message_end as usize {
            return InterpreterResult::new(InstructionResult::Revert, Vec::new(),
                Gas::new(revert_gas));
        }
        // The upper 12 bytes of the address word must be zero.
        if !is_zero_range(calldata, 4, 16) {
            return InterpreterResult::new(InstructionResult::Revert, Vec::new(),
                Gas::new(revert_gas));
        }
        proof {
            assert(spec_wm_length(calldata@) == length);
            assert(spec_withdraw_with_message_ok(calldata@, is_static));
        }
        if !debit_token_account(state, call_value) {
            return InterpreterResult::new(InstructionResult::Revert, Vec::new(),
                Gas::new(revert_gas));
        }
        let additional_data = slice_subrange(calldata, length_encoding_end as usize,
            message_end as usize);
        let receiver = slice_subrange(calldata, 16, 36);
        // The outbound mailbox message; its delivery is beyond this engine.
        let _outbound = encode_withdrawal_with_message(receiver, call_value, caller,
            additional_data);
        return InterpreterResult::new(InstructionResult::Return, Vec::new(), Gas::new(gas_limit));
    }

    InterpreterResult::new(InstructionResult::Revert, Vec::new(), Gas::new(revert_gas))
}

} // verus!
