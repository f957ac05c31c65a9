//! 20-byte account addresses, and the reserved system-contract addresses.

use vstd::prelude::*;
use crate::byteops::eq_bytes;

verus! {

/// A 20-byte account address.
#[derive(Debug, Eq)]
pub struct Address {
    pub bytes: Vec<u8>,
}

impl View for Address {
    type V = Seq<u8>;

    open spec fn view(&self) -> Seq<u8> {
        self.bytes@
    }
}

impl Address {
    /// Well-formedness: exactly 20 bytes.
    pub open spec fn wf(self) -> bool {
        self@.len() == 20
    }

    /// An address read from a 20-byte string.
    pub fn from_slice(s: &[u8]) -> (r: Address)
        requires
            s@.len() == 20,
        ensures
            r@ == s@,
            r.wf(),
    {
        Address { bytes: vstd::slice::slice_to_vec(s) }
    }

    /// A fresh copy of the address.
    pub fn duplicate(&self) -> (r: Address)
        ensures
            r@ == self@,
    {
        Address { bytes: vstd::slice::slice_to_vec(self.bytes.as_slice()) }
    }

    /// The address as a byte slice.
    pub fn as_slice(&self) -> (r: &[u8])
        ensures
            r@ == self@,
    {
        self.bytes.as_slice()
    }
}

impl PartialEq for Address {
    fn eq(&self, other: &Address) -> (r: bool) {
        eq_bytes(self.bytes.as_slice(), other.bytes.as_slice())
    }
}

impl vstd::std_specs::cmp::PartialEqSpecImpl for Address {
    open spec fn obeys_eq_spec() -> bool {
        true
    }

    open spec fn eq_spec(&self, other: &Address) -> bool {
        self@ == other@
    }
}

/// The deployer system contract's address.
pub open spec fn spec_contract_deployer_address() -> Seq<u8> {
    seq![0u8, 0, 0, 0, 0, 0, 0, 0, 0, 0, 0, 0, 0, 0, 0, 0, 0, 0, 0x80, 0x06]
}

/// The L1 messenger system contract's address.
pub open spec fn spec_l1_messenger_address() -> Seq<u8> {
    seq![0u8, 0, 0, 0, 0, 0, 0, 0, 0, 0, 0, 0, 0, 0, 0, 0, 0, 0, 0x80, 0x08]
}

/// The base-token bridge system contract's address.
pub open spec fn spec_l2_base_token_address() -> Seq<u8> {
    seq![0u8, 0, 0, 0, 0, 0, 0, 0, 0, 0, 0, 0, 0, 0, 0, 0, 0, 0, 0x80, 0x0a]
}

/// The genesis-upgrade caller allowed to drive the deployer.
pub open spec fn spec_l2_genesis_upgrade_address() -> Seq<u8> {
    seq![0u8, 0, 0, 0, 0, 0, 0, 0, 0, 0, 0, 0, 0, 0, 0, 0, 0, 0, 0x80, 0x0f]
}

/// The deployer system contract's address.
pub fn contract_deployer_address() -> (r: Address)
    ensures
        r@ == spec_contract_deployer_address(),
        r.wf(),
{
    let a = Address {
        bytes: vec![0u8, 0, 0, 0, 0, 0, 0, 0, 0, 0, 0, 0, 0, 0, 0, 0, 0, 0, 0x80, 0x06],
    };
    proof {
        assert(a@ =~= spec_contract_deployer_address());
    }
    a
}

/// The L1 messenger system contract's address.
pub fn l1_messenger_address() -> (r: Address)
    ensures
        r@ == spec_l1_messenger_address(),
        r.wf(),
{
    let a = Address {
        bytes: vec![0u8, 0, 0, 0, 0, 0, 0, 0, 0, 0, 0, 0, 0, 0, 0, 0, 0, 0, 0x80, 0x08],
    };
    proof {
        assert(a@ =~= spec_l1_messenger_address());
    }
    a
}

/// The base-token bridge system contract's address.
pub fn l2_base_token_address() -> (r: Address)
    ensures
        r@ == spec_l2_base_token_address(),
        r.wf(),
{
    let a = Address {
        bytes: vec![0u8, 0, 0, 0, 0, 0, 0, 0, 0, 0, 0, 0, 0, 0, 0, 0, 0, 0, 0x80, 0x0a],
    };
    proof {
        assert(a@ =~= spec_l2_base_token_address());
    }
    a
}

/// The genesis-upgrade caller allowed to drive the deployer.
pub fn l2_genesis_upgrade_address() -> (r: Address)
    ensures
        r@ == spec_l2_genesis_upgrade_address(),
        r.wf(),
{
    let a = Address {
        bytes: vec![0u8, 0, 0, 0, 0, 0, 0, 0, 0, 0, 0, 0, 0, 0, 0, 0, 0, 0, 0x80, 0x0f],
    };
    proof {
        assert(a@ =~= spec_l2_genesis_upgrade_address());
    }
    a
}

} // verus!
