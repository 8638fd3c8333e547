//! Thirty-two byte identities: signers, records and token accounts are all
//! named by one.

use vstd::prelude::*;

verus! {

/// Number of bytes in an address.
pub const ADDRESS_BYTES: usize = 32;

/// The identity of a signer, a record or a token account.
///
/// Two addresses are the same exactly when their bytes are.
#[derive(Clone, Copy, Debug, Hash)]
pub struct Address {
    pub bytes: [u8; 32],
}

impl View for Address {
    type V = Seq<u8>;

    open spec fn view(&self) -> Seq<u8> {
        self.bytes@
    }
}

impl Address {
    /// The address made of the given bytes.
    pub fn new(bytes: [u8; 32]) -> (a: Address)
        ensures
            a.bytes == bytes,
            a@ == bytes@,
    {
        Address { bytes }
    }

    /// Whether this is the all-zero address, which stands for "no address".
    pub open spec fn spec_is_zero(&self) -> bool {
        self@ == Seq::new(32, |i: int| 0u8)
    }

    /// Whether this is the all-zero address, which stands for "no address".
    #[verifier::when_used_as_spec(spec_is_zero)]
    pub fn is_zero(&self) -> (zero: bool)
        ensures
            zero == self.spec_is_zero(),
    {
        let mut i: usize = 0;
        while i < 32
            invariant
                i <= 32,
                forall|j: int| 0 <= j < i ==> self.bytes[j] == 0,
            decreases 32 - i,
        {
            if self.bytes[i] != 0 {
                proof {
                    assert(self@[i as int] != 0);
                }
                return false;
            }
            i = i + 1;
        }
        proof {
            assert(self@ =~= Seq::new(32, |i: int| 0u8));
        }
        true
    }

    /// The bytes of this address.
    pub fn to_bytes(&self) -> (bytes: [u8; 32])
        ensures
            bytes == self.bytes,
    {
        self.bytes
    }

    /// The bytes of this address, as a vector.
    pub fn to_vec(&self) -> (bytes: Vec<u8>)
        ensures
            bytes@ == self@,
    {
        let mut bytes: Vec<u8> = Vec::new();
        let mut i: usize = 0;
        while i < 32
            invariant
                i <= 32,
                bytes@.len() == i,
                forall|j: int| 0 <= j < i ==> bytes@[j] == self.bytes[j],
            decreases 32 - i,
        {
            bytes.push(self.bytes[i]);
            i = i + 1;
        }
        proof {
            assert(bytes@ =~= self@);
        }
        bytes
    }

    /// Addresses with the same bytes are one address.
    pub proof fn lemma_view_injective(a: Address, b: Address)
        ensures
            a@ == b@ <==> a == b,
    {
        if a@ == b@ {
            assert forall|i: int| 0 <= i < 32 implies a.bytes[i] == b.bytes[i] by {
                assert(a@[i] == b@[i]);
            }
            assert(a.bytes =~= b.bytes);
        }
    }
}

impl PartialEq for Address {
    fn eq(&self, other: &Address) -> (same: bool) {
        let mut i: usize = 0;
        while i < 32
            invariant
                i <= 32,
                forall|j: int| 0 <= j < i ==> self.bytes[j] == other.bytes[j],
            decreases 32 - i,
        {
            if self.bytes[i] != other.bytes[i] {
                return false;
            }
            i = i + 1;
        }
        proof {
            assert(self.bytes =~= other.bytes);
        }
        true
    }
}

impl Eq for Address {

}

impl vstd::std_specs::cmp::PartialEqSpecImpl for Address {
    open spec fn obeys_eq_spec() -> bool {
        true
    }

    open spec fn eq_spec(&self, other: &Address) -> bool {
        *self == *other
    }
}

impl Default for Address {
    /// The all-zero address, which stands for "no address".
    fn default() -> (a: Address)
        ensures
            a.is_zero(),
    {
        let a = Address { bytes: [0u8; 32] };
        proof {
            assert(a@ =~= Seq::new(32, |i: int| 0u8));
        }
        a
    }
}

} // verus!
