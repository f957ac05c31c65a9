//! The L2-to-L1 messenger system contract: takes one strictly ABI-encoded
//! `bytes` parameter, charges gas for hashing and logging it, emits the
//! message-sent log, and returns the message's Keccak-256 hash.

use vstd::prelude::*;
use crate::address::{Address, l1_messenger_address, spec_l1_messenger_address};
use crate::byteops::{be_val, be_word_to_u32, eq_bytes, push_bytes, push_zeros};
use crate::gas::Gas;
use crate::keccak::{keccak_of, keccak256};
use crate::result::{InstructionResult, InterpreterResult};
use crate::state::{JournalState, LogEntry, LogModel};
use crate::u256::U256;
use vstd::slice::{slice_subrange, slice_to_vec};

verus! {

/// Base cost of the hashing charge.
pub const KECCAK256_GAS: u64 = 30;

/// Per-32-byte-word cost of the hashing charge.
pub const KECCAK256WORD_GAS: u64 = 6;

/// Base cost of the log charge.
pub const LOG_GAS: u64 = 375;

/// Per-topic cost of the log charge.
pub const LOGTOPIC_GAS: u64 = 375;

/// Per-data-byte cost of the log charge.
pub const LOGDATA_GAS: u64 = 8;

/// Flat charge taken before anything else.
pub const PRECOMPILE_BASE_GAS: u64 = 10;

/// The selector of the one handled entry point, taking a single `bytes`
/// parameter.
pub open spec fn spec_send_to_l1_selector() -> Seq<u8> {
    seq![0x62u8, 0xf8, 0x4b, 0x24]
}

/// The fixed first topic of every outbound message log.
pub open spec fn spec_l1_message_sent_topic() -> Seq<u8> {
    seq![0x3au8, 0x36, 0xe4, 0x72, 0x91, 0xf4, 0x20, 0x1f, 0xaf, 0x13, 0x7f, 0xab, 0x08, 0x1d,
        0x92, 0x29, 0x5b, 0xce, 0x2d, 0x53, 0xbe, 0x2c, 0x6c, 0xa6, 0x8b, 0xa8, 0x2c, 0x7f, 0xaa,
        0x9c, 0xe2, 0x41]
}

/// An address left-padded with zeros to a 32-byte word.
pub open spec fn spec_pad32(a: Seq<u8>) -> Seq<u8> {
    seq![0u8, 0, 0, 0, 0, 0, 0, 0, 0, 0, 0, 0] + a
}

/// Whether the call is acceptable: the right selector, no value, not
/// static, and the strict single-`bytes` ABI form — the offset word exactly
/// 32, the declared length within the supplied calldata, and a total
/// payload length that is a multiple of 32.
pub open spec fn spec_msg_ok(calldata: Seq<u8>, call_value: int, is_static: bool) -> bool {
    &&& calldata.len() >= 4
    &&& calldata.take(4) == spec_send_to_l1_selector()
    &&& call_value == 0
    &&& !is_static
    &&& calldata.len() - 4 <= 0xFFFF_FFFFint
    &&& calldata.len() - 4 >= 32
    &&& be_val(calldata.subrange(4, 36)) == 32
    &&& calldata.len() - 4 >= 64
    &&& be_val(calldata.subrange(36, 68)) + 64 <= 0xFFFF_FFFFint
    &&& calldata.len() - 4 >= 64 + be_val(calldata.subrange(36, 68))
    &&& (calldata.len() - 4) % 32 == 0
}

/// The message carried by an acceptable call.
pub open spec fn spec_message(calldata: Seq<u8>) -> Seq<u8> {
    calldata.subrange(68, 68 + be_val(calldata.subrange(36, 68)))
}

/// Gas charged for hashing and logging a message of `n` bytes.
pub open spec fn spec_msg_gas(n: int) -> int {
    KECCAK256_GAS + KECCAK256WORD_GAS * ((n + 31) / 32) + LOG_GAS + 3 * LOGTOPIC_GAS + LOGDATA_GAS
        * n
}

/// The log an acceptable call emits.
pub open spec fn spec_msg_log(calldata: Seq<u8>, caller: Seq<u8>) -> LogModel {
    LogModel {
        address: spec_l1_messenger_address(),
        topics: seq![
            spec_l1_message_sent_topic(),
            spec_pad32(caller),
            keccak_of(spec_message(calldata)),
        ],
        data: calldata.skip(4),
    }
}

/// Everything the messenger guarantees of one call: how the result is
/// classified, what gas it carries, and what the call did to the state.
pub open spec fn spec_messenger_post(
    pre: JournalState,
    post: JournalState,
    r: InterpreterResult,
    caller: Seq<u8>,
    is_static: bool,
    gas_limit: u64,
    call_value: int,
    calldata: Seq<u8>,
) -> bool {
    &&& post.accounts_map() == pre.accounts_map()
    &&& post.snapshot == pre.snapshot
    &&& post.code_store@ == pre.code_store@
    &&& (gas_limit < PRECOMPILE_BASE_GAS ==> r.result is OutOfGas && post.logs@ == pre.logs@)
    &&& (gas_limit >= PRECOMPILE_BASE_GAS && !spec_msg_ok(calldata, call_value, is_static)
        ==> r.result is Revert && r.output.len() == 0 && r.gas.limit == gas_limit
        && r.gas.remaining == gas_limit - PRECOMPILE_BASE_GAS && post.logs@ == pre.logs@)
    &&& (gas_limit >= PRECOMPILE_BASE_GAS && spec_msg_ok(calldata, call_value, is_static)
        && gas_limit - PRECOMPILE_BASE_GAS < spec_msg_gas(spec_message(calldata).len() as int)
        ==> r.result is OutOfGas && post.logs@ == pre.logs@)
    &&& (gas_limit >= PRECOMPILE_BASE_GAS && spec_msg_ok(calldata, call_value, is_static)
        && gas_limit - PRECOMPILE_BASE_GAS >= spec_msg_gas(spec_message(calldata).len() as int)
        ==> r.result is Return && r.output@ == keccak_of(spec_message(calldata))
        && r.gas.limit == gas_limit && r.gas.remaining == gas_limit - PRECOMPILE_BASE_GAS
        - spec_msg_gas(spec_message(calldata).len() as int) && post.logs_model()
        == pre.logs_model().push(spec_msg_log(calldata, caller)))
}

/// An address left-padded with zeros to a 32-byte word.
fn pad_address_32(addr: &Address) -> (r: Vec<u8>)
    requires
        addr@.len() == 20,
    ensures
        r@ == spec_pad32(addr@),
{
    let mut out: Vec<u8> = Vec::new();
    push_zeros(&mut out, 12);
    push_bytes(&mut out, addr.as_slice());
    proof {
        assert(out@ =~= spec_pad32(addr@));
    }
    out
}

/// Runs the L1 messenger system contract.
///
/// A malformed call — wrong selector, value attached, a static frame, or an
/// encoding that breaks the strict form — reverts without hashing or
/// logging. An acceptable call charges exactly the hashing-plus-logging
/// gas, failing closed with out-of-gas, then emits the message log and
/// returns the message hash.
pub fn l1_messenger_precompile_call(
    state: &mut JournalState,
    caller: &Address,
    is_static: bool,
    gas_limit: u64,
    call_value: &U256,
    calldata: &[u8],
) -> (r: InterpreterResult)
    requires
        old(state).wf(),
        caller@.len() == 20,
    ensures
        final(state).wf(),
        r.gas.wf(),
        spec_messenger_post(*old(state), *final(state), r, caller@, is_static, gas_limit,
            call_value.as_nat(), calldata@),
{
    let mut gas = Gas::new(gas_limit);
    if !gas.record_cost(PRECOMPILE_BASE_GAS) {
        return InterpreterResult::new(InstructionResult::OutOfGas, Vec::new(), Gas::new(0));
    }

    if calldata.len() < 4 {
        return InterpreterResult::new(InstructionResult::Revert, Vec::new(), gas);
    }
    let selector = slice_subrange(calldata, 0, 4);
    let sel_expected: Vec<u8> = vec![0x62u8, 0xf8, 0x4b, 0x24];
    proof {
        assert(sel_expected@ =~= spec_send_to_l1_selector());
        assert(selector@ =~= calldata@.take(4));
    }
    if !eq_bytes(selector, sel_expected.as_slice()) {
        return InterpreterResult::new(InstructionResult::Revert, Vec::new(), gas);
    }
    if !call_value.is_zero() {
        return InterpreterResult::new(InstructionResult::Revert, Vec::new(), gas);
    }
    if is_static {
        return InterpreterResult::new(InstructionResult::Revert, Vec::new(), gas);
    }

    let n = calldata.len();
    let d = slice_subrange(calldata, 4, n);
    proof {
        assert(d@ =~= calldata@.skip(4));
    }
    let d_len = d.len();
    if d_len > 0xFFFF_FFFFusize {
        return InterpreterResult::new(InstructionResult::Revert, Vec::new(), gas);
    }
    if d_len < 32 {
        return InterpreterResult::new(InstructionResult::Revert, Vec::new(), gas);
    }
    let offset_word = slice_subrange(d, 0, 32);
    proof {
        assert(offset_word@ =~= calldata@.subrange(4, 36));
    }
    let message_offset = match be_word_to_u32(offset_word) {
        Some(o) => o,
        None => {
            return InterpreterResult::new(InstructionResult::Revert, Vec::new(), gas);
        },
    };
    if message_offset != 32 {
        return InterpreterResult::new(InstructionResult::Revert, Vec::new(), gas);
    }
    if d_len < 64 {
        return InterpreterResult::new(InstructionResult::Revert, Vec::new(), gas);
    }
    let length_word = slice_subrange(d, 32, 64);
    proof {
        assert(length_word@ =~= calldata@.subrange(36, 68));
    }
    let length = match be_word_to_u32(length_word) {
        Some(l) => l,
        None => {
            return InterpreterResult::new(InstructionResult::Revert, Vec::new(), gas);
        },
    };
    let message_end = match length.checked_add(64) {
        Some(e) => e,
        None => {
            return InterpreterResult::new(InstructionResult::Revert, Vec::new(), gas);
        },
    };
    if d_len < message_end as usize {
        return InterpreterResult::new(InstructionResult::Revert, Vec::new(), gas);
    }
    if d_len % 32 != 0 {
        return InterpreterResult::new(InstructionResult::Revert, Vec::new(), gas);
    }

    let message = slice_subrange(d, 64, message_end as usize);
    proof {
        assert(message@ =~= spec_message(calldata@));
        assert(spec_msg_ok(calldata@, call_value.as_nat(), is_static));
    }

    let msg_len = message.len() as u64;
    let words = (msg_len + 31) / 32;
    let keccak256_gas = KECCAK256_GAS + KECCAK256WORD_GAS * words;
    let log_gas = LOG_GAS + LOGTOPIC_GAS * 3 + LOGDATA_GAS * msg_len;
    let needed_gas = keccak256_gas + log_gas;
    proof {
        assert(needed_gas == spec_msg_gas(message@.len() as int));
    }
    if !gas.record_cost(needed_gas) {
        return InterpreterResult::new(InstructionResult::OutOfGas, Vec::new(), Gas::new(0));
    }

    let message_hash = keccak256(message);
    let topic0: Vec<u8> = vec![0x3au8, 0x36, 0xe4, 0x72, 0x91, 0xf4, 0x20, 0x1f, 0xaf, 0x13, 0x7f,
        0xab, 0x08, 0x1d, 0x92, 0x29, 0x5b, 0xce, 0x2d, 0x53, 0xbe, 0x2c, 0x6c, 0xa6, 0x8b, 0xa8,
        0x2c, 0x7f, 0xaa, 0x9c, 0xe2, 0x41];
    proof {
        assert(topic0@ =~= spec_l1_message_sent_topic());
    }
    let caller_topic = pad_address_32(caller);
    let hash_topic = slice_to_vec(message_hash.as_slice());
    let mut topics: Vec<Vec<u8>> = Vec::new();
    topics.push(topic0);
    topics.push(caller_topic);
    topics.push(hash_topic);
    let entry = LogEntry { address: l1_messenger_address(), topics, data: slice_to_vec(d) };
    proof {
        assert(entry.model().topics =~= spec_msg_log(calldata@, caller@).topics);
        assert(entry.model() == spec_msg_log(calldata@, caller@));
    }
    state.log(entry);
    InterpreterResult::new(InstructionResult::Return, message_hash, gas)
}

} // verus!
