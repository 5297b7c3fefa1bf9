//! Account addresses.

use vstd::prelude::*;

verus! {

/// The number of bytes in an account address.
pub const PUBKEY_BYTES: usize = 32;

/// A 32-byte account address.
///
/// The all-zero address is the "default" address: an account field that
/// holds it has never been assigned.
#[derive(Clone, Copy, Debug, PartialEq, Eq)]
pub struct Pubkey(pub [u8; 32]);

/// The bytes of the all-zero address.
pub open spec fn zero_bytes() -> Seq<u8> {
    Seq::new(32, |i: int| 0u8)
}

impl Pubkey {
    /// The bytes of the address.
    pub open spec fn bytes(self) -> Seq<u8> {
        self.0@
    }

    /// Whether this is the all-zero address.
    pub open spec fn spec_is_default(self) -> bool {
        self.bytes() =~= zero_bytes()
    }

    /// Builds an address from its 32 bytes.
    pub fn new_from_array(bytes: [u8; 32]) -> (key: Pubkey)
        ensures
            key.bytes() == bytes@,
            key.0@ == bytes@,
    {
        Pubkey(bytes)
    }

    /// The all-zero address.
    pub fn default_key() -> (key: Pubkey)
        ensures
            key.spec_is_default(),
            forall|i: int| 0 <= i < 32 ==> #[trigger] key.0@[i] == 0u8,
    {
        let key = Pubkey([0u8; 32]);
        assert(key.bytes() =~= zero_bytes());
        key
    }

    /// The 32 bytes of the address.
    pub fn to_bytes(&self) -> (bytes: [u8; 32])
        ensures
            bytes@ == self.bytes(),
            bytes@ == self.0@,
    {
        self.0
    }

    /// The bytes of the address, as a vector.
    pub fn to_vec(&self) -> (bytes: Vec<u8>)
        ensures
            bytes@ == self.bytes(),
            bytes@ == self.0@,
    {
        let mut out: Vec<u8> = Vec::new();
        let mut i: usize = 0;
        while i < PUBKEY_BYTES
            invariant
                i <= PUBKEY_BYTES,
                out@ == self.bytes().subrange(0, i as int),
            decreases PUBKEY_BYTES - i,
        {
            out.push(self.0[i]);
            i = i + 1;
        }
        assert(out@ =~= self.bytes());
        out
    }

    /// Whether this is the all-zero address, the value of a field that was
    /// never assigned.
    pub fn is_default(&self) -> (r: bool)
        ensures
            r == self.spec_is_default(),
            r <==> (forall|i: int| 0 <= i < 32 ==> #[trigger] self.0@[i] == 0u8),
    {
        let mut i: usize = 0;
        while i < PUBKEY_BYTES
            invariant
                i <= PUBKEY_BYTES,
                forall|j: int| 0 <= j < i ==> self.bytes()[j] == 0u8,
            decreases PUBKEY_BYTES - i,
        {
            if self.0[i] != 0 {
                assert(self.bytes()[i as int] != zero_bytes()[i as int]);
                return false;
            }
            i = i + 1;
        }
        assert(self.bytes() =~= zero_bytes());
        assert(forall|j: int| 0 <= j < 32 ==> #[trigger] self.0@[j] == 0u8);
        true
    }
}

} // verus!
