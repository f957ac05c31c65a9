//! The chain's system contracts at their reserved addresses, and the
//! dispatch that places them in front of the standard precompile set.

pub mod deployer;
pub mod l1_messenger;
pub mod l2_base_token;

use vstd::prelude::*;
use crate::address::{Address, spec_contract_deployer_address, spec_l1_messenger_address,
    spec_l2_base_token_address, contract_deployer_address, l1_messenger_address,
    l2_base_token_address};
use crate::byteops::eq_bytes;
use crate::result::InterpreterResult;
use crate::spec_id::ZkSpecId;
use crate::state::{JournalState, spec_code_by_hash};
use crate::u256::U256;
use deployer::{deployer_precompile_call, spec_deploy_hash, spec_deploy_len, spec_deploy_ok,
    spec_deployer_post};
use l1_messenger::{l1_messenger_precompile_call, spec_messenger_post};
use l2_base_token::{l2_base_token_precompile_call, spec_base_token_post};

verus! {

/// The standard precompile addresses the chain keeps: signature recovery,
/// the two hashes, identity, modular exponentiation, and the three pairing
/// helpers, at addresses 1 through 8.
pub open spec fn spec_standard_precompile_addresses() -> Seq<Seq<u8>> {
    Seq::new(8, |i: int| Seq::new(19, |j: int| 0u8).push((i + 1) as u8))
}

/// Whether `a` belongs to this chain's warm set: the standard precompiles
/// and the three system contracts.
pub open spec fn spec_is_warm_address(a: Seq<u8>) -> bool {
    ||| spec_standard_precompile_addresses().contains(a)
    ||| a == spec_contract_deployer_address()
    ||| a == spec_l1_messenger_address()
    ||| a == spec_l2_base_token_address()
}

/// The chain's precompile provider: the three system contracts in front of
/// the standard set.
#[derive(Debug)]
pub struct ZKsyncPrecompiles {
    /// The standard precompile addresses, as the base engine provides them.
    pub inner_addresses: Vec<Address>,
    /// The fork the provider was built for.
    pub spec: ZkSpecId,
}

/// What the dispatch returned: a system contract's own result, or the word
/// that the base engine's standard set is to handle the call.
#[derive(Debug)]
pub enum PrecompileOutcome {
    /// One of the three system contracts ran.
    Handled(InterpreterResult),
    /// The address is not a system contract; the standard set decides.
    Delegate,
}

impl Default for ZKsyncPrecompiles {
    fn default() -> (r: ZKsyncPrecompiles)
        ensures
            r.wf(),
            r.spec_id() == ZkSpecId::Atlas,
    {
        ZKsyncPrecompiles::new_with_spec(ZkSpecId::Atlas)
    }
}

impl ZKsyncPrecompiles {
    /// Well-formedness: the standard table holds the eight expected
    /// addresses.
    pub open spec fn wf(self) -> bool {
        &&& self.inner_addresses@.len() == 8
    &&& forall|i: int|
        0 <= i < 8 ==> (#[trigger] self.inner_addresses@[i]@)
            == spec_standard_precompile_addresses()[i]
    }

    /// The fork the provider was built for.
    pub open spec fn spec_id(self) -> ZkSpecId {
        self.spec
    }

    /// A provider for the given fork, with the standard table built.
    pub fn new_with_spec(spec: ZkSpecId) -> (r: ZKsyncPrecompiles)
        ensures
            r.wf(),
            r.spec_id() == spec,
    {
        let mut inner_addresses: Vec<Address> = Vec::new();
        let mut b: u8 = 1;
        while b <= 8
            invariant
                1 <= b <= 9,
                inner_addresses@.len() == b - 1,
                forall|i: int|
                    0 <= i < b - 1 ==> (#[trigger] inner_addresses@[i]@)
                        == spec_standard_precompile_addresses()[i],
            decreases 9 - b,
        {
            let mut bytes: Vec<u8> = vec![0u8; 19];
            bytes.push(b);
            let a = Address { bytes };
            proof {
                assert(a@ =~= spec_standard_precompile_addresses()[b - 1]);
            }
            inner_addresses.push(a);
            b += 1;
        }
        ZKsyncPrecompiles { inner_addresses, spec }
    }

    /// The standard precompile table.
    pub fn precompiles(&self) -> (r: &Vec<Address>)
        ensures
            r == &self.inner_addresses,
    {
        &self.inner_addresses
    }

    /// Rebuilds the provider when the fork changes; reports whether it did.
    pub fn set_spec(&mut self, spec: ZkSpecId) -> (changed: bool)
        requires
            old(self).wf(),
        ensures
            final(self).wf(),
            final(self).spec_id() == spec,
            changed == (old(self).spec_id() != spec),
    {
        if spec == self.spec {
            return false;
        }
        *self = ZKsyncPrecompiles::new_with_spec(spec);
        true
    }

    /// Dispatches a call: one of the three system contracts runs when the
    /// address is theirs, else the standard set is left to decide.
    pub fn run(
        &self,
        state: &mut JournalState,
        address: &Address,
        caller: &Address,
        is_static: bool,
        gas_limit: u64,
        call_value: &U256,
        calldata: &[u8],
    ) -> (r: PrecompileOutcome)
        requires
            old(state).wf(),
            caller@.len() == 20,
            address@ == spec_contract_deployer_address() && spec_deploy_ok(calldata@,
                call_value.as_nat(), is_static, caller@) ==> spec_code_by_hash(
                old(state).code_store@,
                spec_deploy_hash(calldata@),
            ) is Some && spec_code_by_hash(old(state).code_store@, spec_deploy_hash(calldata@)).unwrap().len()
                >= spec_deploy_len(calldata@),
        ensures
            final(state).wf(),
            address@ == spec_contract_deployer_address() ==> r is Handled && spec_deployer_post(
                *old(state),
                *final(state),
                r.arrow_Handled_0(),
                caller@,
                is_static,
                gas_limit,
                call_value.as_nat(),
                calldata@,
            ),
            address@ == spec_l1_messenger_address() ==> r is Handled && spec_messenger_post(
                *old(state),
                *final(state),
                r.arrow_Handled_0(),
                caller@,
                is_static,
                gas_limit,
                call_value.as_nat(),
                calldata@,
            ),
            address@ == spec_l2_base_token_address() ==> r is Handled && spec_base_token_post(
                *old(state),
                *final(state),
                r.arrow_Handled_0(),
                is_static,
                gas_limit,
                call_value.as_nat(),
                calldata@,
            ),
            address@ != spec_contract_deployer_address() && address@ != spec_l1_messenger_address()
                && address@ != spec_l2_base_token_address() ==> r is Delegate && *final(state)
                == *old(state),
    {
        let deployer_addr = contract_deployer_address();
        if eq_bytes(address.as_slice(), deployer_addr.as_slice()) {
            return PrecompileOutcome::Handled(
                deployer_precompile_call(state, caller, is_static, gas_limit, call_value, calldata),
            );
        }
        let messenger_addr = l1_messenger_address();
        if eq_bytes(address.as_slice(), messenger_addr.as_slice()) {
            return PrecompileOutcome::Handled(
                l1_messenger_precompile_call(state, caller, is_static, gas_limit, call_value,
                    calldata),
            );
        }
        let base_token_addr = l2_base_token_address();
        if eq_bytes(address.as_slice(), base_token_addr.as_slice()) {
            return PrecompileOutcome::Handled(
                l2_base_token_precompile_call(state, caller, is_static, gas_limit, call_value,
                    calldata),
            );
        }
        PrecompileOutcome::Delegate
    }

    /// The warm address set: the standard precompiles and the three system
    /// contracts.
    pub fn warm_addresses(&self) -> (r: Vec<Address>)
        requires
            self.wf(),
        ensures
            r@.len() == 11,
            forall|i: int|
                0 <= i < 8 ==> (#[trigger] r@[i]@) == spec_standard_precompile_addresses()[i],
            r@[8]@ == spec_contract_deployer_address(),
            r@[9]@ == spec_l1_messenger_address(),
            r@[10]@ == spec_l2_base_token_address(),
            forall|i: int| 0 <= i < r@.len() ==> spec_is_warm_address(#[trigger] r@[i]@),
    {
        let mut out: Vec<Address> = Vec::new();
        let mut i: usize = 0;
        while i < self.inner_addresses.len()
            invariant
                self.wf(),
                0 <= i <= 8,
                out@.len() == i,
                forall|j: int|
                    0 <= j < i ==> (#[trigger] out@[j]@) == spec_standard_precompile_addresses()[j],
                forall|j: int| 0 <= j < i ==> spec_is_warm_address(#[trigger] out@[j]@),
            decreases 8 - i,
        {
            let a = self.inner_addresses[i].duplicate();
            proof {
                assert(spec_standard_precompile_addresses().contains(a@)) by {
                    assert(spec_standard_precompile_addresses()[i as int] == a@);
                }
            }
            out.push(a);
            i += 1;
        }
        out.push(contract_deployer_address());
        out.push(l1_messenger_address());
        out.push(l2_base_token_address());
        out
    }

    /// Whether `address` is warm on this chain.
    pub fn contains(&self, address: &Address) -> (r: bool)
        requires
            self.wf(),
        ensures
            r == spec_is_warm_address(address@),
    {
        let deployer_addr = contract_deployer_address();
        if eq_bytes(address.as_slice(), deployer_addr.as_slice()) {
            return true;
        }
        let messenger_addr = l1_messenger_address();
        if eq_bytes(address.as_slice(), messenger_addr.as_slice()) {
            return true;
        }
        let base_token_addr = l2_base_token_address();
        if eq_bytes(address.as_slice(), base_token_addr.as_slice()) {
            return true;
        }
        let mut i: usize = 0;
        while i < self.inner_addresses.len()
            invariant
                self.wf(),
                0 <= i <= 8,
                forall|j: int| 0 <= j < i ==> (#[trigger] self.inner_addresses@[j]@) != address@,
            decreases 8 - i,
        {
            if eq_bytes(self.inner_addresses[i].as_slice(), address.as_slice()) {
                proof {
                    assert(spec_standard_precompile_addresses().contains(address@)) by {
                        assert(spec_standard_precompile_addresses()[i as int] == address@);
                    }
                }
                return true;
            }
            i += 1;
        }
        proof {
            if spec_standard_precompile_addresses().contains(address@) {
                let k = choose|k: int|
                    0 <= k < 8 && spec_standard_precompile_addresses()[k] == address@;
                assert(self.inner_addresses@[k]@ == address@);
            }
        }
        false
    }
}

} // verus!
