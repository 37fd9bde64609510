//! A plain 32-byte account-owner address.
//!
//! The address is held as raw bytes so that equality over it is ordinary
//! byte equality, stated and proved here rather than inherited from an
//! unverified derive.

use vstd::prelude::*;

verus! {

/// The size of an account address, in bytes.
pub const PUBKEY_LEN: usize = 32;

/// A 32-byte account-owner address.
#[derive(Clone, Copy, Debug)]
pub struct Pubkey {
    bytes: [u8; PUBKEY_LEN],
}

impl View for Pubkey {
    type V = Seq<u8>;

    closed spec fn view(&self) -> Seq<u8> {
        self.bytes@
    }
}

impl Pubkey {
    /// Wraps raw address bytes.
    pub fn new(bytes: [u8; PUBKEY_LEN]) -> (r: Pubkey)
        ensures
            r@ == bytes@,
    {
        Pubkey { bytes }
    }

    /// Returns the address as raw bytes.
    pub fn to_bytes(&self) -> (r: [u8; PUBKEY_LEN])
        ensures
            r@ == self@,
    {
        self.bytes
    }
}

impl PartialEq for Pubkey {
    fn eq(&self, other: &Pubkey) -> (r: bool) {
        let mut i: usize = 0;
        while i < PUBKEY_LEN
            invariant
                i <= PUBKEY_LEN,
                forall|j: int| 0 <= j < i ==> self.bytes@[j] == other.bytes@[j],
            decreases PUBKEY_LEN - i,
        {
            if self.bytes[i] != other.bytes[i] {
                return false;
            }
            i += 1;
        }
        proof {
            assert(self.bytes@ =~= other.bytes@);
        }
        true
    }
}

impl Eq for Pubkey {}

impl vstd::std_specs::cmp::PartialEqSpecImpl for Pubkey {
    open spec fn obeys_eq_spec() -> bool {
        true
    }

    open spec fn eq_spec(&self, other: &Pubkey) -> bool {
        self@ == other@
    }
}

} // verus!
