//! Identities: the fixed-size identifiers of accounts and of content.

use vstd::prelude::*;

verus! {

/// A key of a [`Table`](crate::table::Table): a small value that executable
/// code can copy and compare.
pub trait Key: Copy {
    /// Whether `self` and `other` are the same key.
    fn same(&self, other: &Self) -> (r: bool)
        ensures
            r == (*self == *other),
    ;
}

/// Whether two 32-byte identifiers hold the same bytes.
pub fn same_bytes(a: &[u8; 32], b: &[u8; 32]) -> (r: bool)
    ensures
        r == (*a == *b),
{
    let mut i: usize = 0;
    while i < 32
        invariant
            i <= 32,
            forall|j: int| 0 <= j < i ==> a[j] == b[j],
        decreases 32 - i,
    {
        if a[i] != b[i] {
            return false;
        }
        i = i + 1;
    }
    assert(*a =~= *b);
    true
}

/// The identity of an account: an opaque 32-byte value.
#[derive(Clone, Copy, Debug, PartialEq, Eq)]
pub struct AccountId(pub [u8; 32]);

impl AccountId {
    /// The account with the given bytes.
    pub fn new(bytes: [u8; 32]) -> (id: Self)
        ensures
            id.0 == bytes,
    {
        AccountId(bytes)
    }

    /// The bytes of this identity.
    pub fn bytes(&self) -> (bytes: [u8; 32])
        ensures
            bytes == self.0,
    {
        self.0
    }
}

impl Key for AccountId {
    fn same(&self, other: &Self) -> (r: bool) {
        same_bytes(&self.0, &other.0)
    }
}

/// The hash that identifies one piece of content: an opaque 32-byte value,
/// taken to differ between distinct contents.
#[derive(Clone, Copy, Debug, PartialEq, Eq)]
pub struct ContentHash(pub [u8; 32]);

impl ContentHash {
    /// The content hash with the given bytes.
    pub fn new(bytes: [u8; 32]) -> (hash: Self)
        ensures
            hash.0 == bytes,
    {
        ContentHash(bytes)
    }

    /// The bytes of this hash.
    pub fn bytes(&self) -> (bytes: [u8; 32])
        ensures
            bytes == self.0,
    {
        self.0
    }
}

impl Key for ContentHash {
    fn same(&self, other: &Self) -> (r: bool) {
        same_bytes(&self.0, &other.0)
    }
}

} // verus!
