//! Byte tags: the eight bytes with which an instruction or a stored record begins
//! and by which it is told from every other.

use vstd::prelude::*;

verus! {

/// Whether `data` begins with `tag`.
pub open spec fn begins_with(data: Seq<u8>, tag: Seq<u8>) -> bool {
    data.len() >= tag.len() && data.subrange(0, tag.len() as int) == tag
}

/// Tells whether `data` begins with the eight bytes `tag`.
pub fn check_tag(data: &[u8], tag: &[u8; 8]) -> (r: bool)
    ensures
        r == begins_with(data@, tag@),
{
    if data.len() < 8 {
        return false;
    }
    let mut i: usize = 0;
    while i < 8
        invariant
            i <= 8,
            data@.len() >= 8,
            forall|j: int| 0 <= j < i ==> data@[j] == tag@[j],
        decreases 8 - i,
    {
        if data[i] != tag[i] {
            return false;
        }
        i += 1;
    }
    assert(data@.subrange(0, 8) =~= tag@);
    true
}

} // verus!
