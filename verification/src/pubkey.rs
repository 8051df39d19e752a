//! Account addresses as plain 32-byte values.

use vstd::prelude::*;

verus! {

/// Number of bytes in an account address.
pub const PUBKEY_BYTES: usize = 32;

/// A 32-byte account address.  The core never interprets the bytes; it
/// only stores them and copies them through the packed layout.
#[derive(Debug, PartialEq, Eq)]
pub struct Pubkey {
    bytes: Vec<u8>,
}

impl Clone for Pubkey {
    fn clone(&self) -> (r: Self) {
        proof {
            use_type_invariant(self);
        }
        Pubkey { bytes: vstd::slice::slice_to_vec(self.bytes.as_slice()) }
    }
}

impl View for Pubkey {
    type V = Seq<u8>;

    /// The address as the sequence of its 32 bytes.
    closed spec fn view(&self) -> Seq<u8> {
        self.bytes@
    }
}

impl Pubkey {
    /// An address has exactly 32 bytes.
    #[verifier::type_invariant]
    pub open spec fn inv(self) -> bool {
        self@.len() == 32
    }

    /// An address from its raw bytes.
    pub fn new_from_array(bytes: [u8; 32]) -> (r: Self)
        ensures
            r@ == bytes@,
    {
        Pubkey { bytes: vstd::slice::slice_to_vec(vstd::array::array_as_slice(&bytes)) }
    }

    /// An address read out of a 32-byte slice.
    pub fn new_from_slice(bytes: &[u8]) -> (r: Self)
        requires
            bytes@.len() == 32,
        ensures
            r@ == bytes@,
    {
        Pubkey { bytes: vstd::slice::slice_to_vec(bytes) }
    }

    /// The raw bytes of the address.
    pub fn as_slice(&self) -> (r: &[u8])
        ensures
            r@ == self@,
    {
        self.bytes.as_slice()
    }
}

} // verus!
