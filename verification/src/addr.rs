//! The identity of a caller or call target: a 20-byte account address.

use vstd::prelude::*;
use crate::bytes::bytes_eq;
use crate::bytes::copy_bytes;

verus! {

/// The sentinel "no owner" address: twenty zero bytes.
pub open spec fn zero_address() -> Seq<u8> {
    Seq::new(20, |i: int| 0u8)
}

/// A 20-byte account address. The all-zero address is the sentinel that
/// stands for "no owner".
#[derive(Debug)]
pub struct Address {
    bytes: Vec<u8>,
}

impl View for Address {
    type V = Seq<u8>;

    closed spec fn view(&self) -> Seq<u8> {
        self.bytes@
    }
}

impl Address {
    /// An address is well formed when it holds exactly twenty bytes.
    pub open spec fn wf(&self) -> bool {
        self@.len() == 20
    }

    /// Builds an address from its twenty bytes; rejects any other length.
    pub fn from_bytes(bytes: Vec<u8>) -> (r: Option<Address>)
        ensures
            bytes@.len() == 20 ==> (r matches Some(a) && a@ == bytes@ && a.wf()),
            bytes@.len() != 20 ==> r is None,
    {
        if bytes.len() == 20 {
            Some(Address { bytes })
        } else {
            None
        }
    }

    /// The sentinel address: twenty zero bytes.
    pub fn zero() -> (r: Address)
        ensures
            r@ == zero_address(),
            r.wf(),
    {
        let mut bytes: Vec<u8> = Vec::new();
        let mut i: usize = 0;
        while i < 20
            invariant
                i <= 20,
                bytes@.len() == i,
                forall|j: int| 0 <= j < i ==> bytes@[j] == 0u8,
            decreases 20 - i,
        {
            bytes.push(0u8);
            i += 1;
        }
        proof {
            assert(bytes@ =~= zero_address());
        }
        Address { bytes }
    }

    /// The address's bytes.
    pub fn as_bytes(&self) -> (r: &Vec<u8>)
        ensures
            r@ == self@,
    {
        &self.bytes
    }

    /// Whether two addresses hold the same bytes.
    pub fn eq_addr(&self, other: &Address) -> (r: bool)
        ensures
            r == (self@ == other@),
    {
        bytes_eq(&self.bytes, &other.bytes)
    }

    /// Whether this is the sentinel address.
    pub fn is_zero(&self) -> (r: bool)
        ensures
            r == (self@ == zero_address()),
    {
        if self.bytes.len() != 20 {
            proof {
                assert(self@.len() != zero_address().len());
            }
            return false;
        }
        let mut i: usize = 0;
        while i < 20
            invariant
                i <= 20,
                self@.len() == 20,
                forall|j: int| 0 <= j < i ==> self@[j] == 0u8,
            decreases 20 - i,
        {
            if self.bytes[i] != 0 {
                proof {
                    assert(self@[i as int] != zero_address()[i as int]);
                }
                return false;
            }
            i += 1;
        }
        proof {
            assert(self@ =~= zero_address());
        }
        true
    }

    /// Returns a fresh address with the same bytes.
    pub fn dup(&self) -> (r: Address)
        ensures
            r@ == self@,
    {
        Address { bytes: copy_bytes(&self.bytes) }
    }
}

} // verus!
