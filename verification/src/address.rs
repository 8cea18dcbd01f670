//! Account addresses: thirty-two bytes that name an account on the ledger.

use vstd::prelude::*;

verus! {

/// The address of an account, a wallet, an asset type or a program.
#[derive(Clone, Copy, Debug, PartialEq, Eq, Hash)]
pub struct Address {
    pub bytes: [u8; 32],
}

impl View for Address {
    type V = Seq<u8>;

    open spec fn view(&self) -> Seq<u8> {
        self.bytes@
    }
}

impl Address {
    /// Wraps thirty-two bytes as an address.
    pub fn new(bytes: [u8; 32]) -> (a: Address)
        ensures
            a.bytes == bytes,
            a@ == bytes@,
    {
        Address { bytes }
    }

    /// Reads the address that stands in `bytes` from position `start` on, if
    /// thirty-two bytes stand there.
    pub fn read(bytes: &[u8], start: usize) -> (a: Option<Address>)
        ensures
            a is Some <==> start + 32 <= bytes@.len(),
            a matches Some(address) ==> address@ == bytes@.subrange(start as int, start + 32),
    {
        if bytes.len() < 32 || start > bytes.len() - 32 {
            return None;
        }
        let mut out = [0u8; 32];
        let mut i: usize = 0;
        while i < 32
            invariant
                i <= 32,
                start + 32 <= bytes@.len(),
                bytes@.len() <= usize::MAX,
                forall|j: int| 0 <= j < i ==> out@[j] == bytes@[start + j],
            decreases 32 - i,
        {
            out[i] = bytes[start + i];
            i += 1;
        }
        Some(Address { bytes: out })
    }

    /// Compares two addresses byte by byte.
    pub fn same(&self, other: &Address) -> (r: bool)
        ensures
            r == (self@ == other@),
            r == (*self == *other),
    {
        let mut i: usize = 0;
        while i < 32
            invariant
                i <= 32,
                forall|j: int| 0 <= j < i ==> self.bytes@[j] == other.bytes@[j],
            decreases 32 - i,
        {
            if self.bytes[i] != other.bytes[i] {
                return false;
            }
            i += 1;
        }
        assert(self.bytes =~= other.bytes);
        true
    }

    /// The address as a byte vector, the form in which it enters a derivation.
    pub fn to_vec(&self) -> (v: Vec<u8>)
        ensures
            v@ == self@,
    {
        let mut v: Vec<u8> = Vec::new();
        let mut i: usize = 0;
        while i < 32
            invariant
                i <= 32,
                v@ == self.bytes@.subrange(0, i as int),
            decreases 32 - i,
        {
            v.push(self.bytes[i]);
            i += 1;
        }
        v
    }
}

/// Two addresses with the same bytes are the same address.
pub proof fn lemma_address_by_bytes(a: Address, b: Address)
    requires
        a@ == b@,
    ensures
        a == b,
{
    assert(a.bytes =~= b.bytes);
}

/// Whether some address occurs at two places of `keys`.
pub open spec fn has_duplicates(keys: Seq<Address>) -> bool {
    exists|i: int, j: int| 0 <= i < j < keys.len() && keys[i] == keys[j]
}

/// Tells whether some address occurs at two places of `keys`.
pub fn contains_duplicates(keys: &Vec<Address>) -> (r: bool)
    ensures
        r == has_duplicates(keys@),
{
    let n = keys.len();
    let mut j: usize = 0;
    while j < n
        invariant
            n == keys.len(),
            j <= n,
            forall|a: int, b: int| 0 <= a < b < j ==> keys@[a] != keys@[b],
        decreases n - j,
    {
        let mut i: usize = 0;
        while i < j
            invariant
                n == keys.len(),
                j < n,
                i <= j,
                forall|a: int| 0 <= a < i ==> keys@[a] != keys@[j as int],
            decreases j - i,
        {
            if keys[i].same(&keys[j]) {
                return true;
            }
            i += 1;
        }
        j += 1;
    }
    false
}

} // verus!
