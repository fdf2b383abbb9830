//! Helpers on byte strings.

use vstd::prelude::*;

verus! {

/// A copy of `bytes`.
pub fn copy_bytes(bytes: &Vec<u8>) -> (copy: Vec<u8>)
    ensures
        copy@ == bytes@,
{
    let copy = bytes.clone();
    assert(copy@ =~= bytes@);
    copy
}

/// Whether two byte strings hold the same bytes.
pub fn same_bytes(a: &Vec<u8>, b: &Vec<u8>) -> (same: bool)
    ensures
        same == (a@ == b@),
{
    if a.len() != b.len() {
        return false;
    }
    let mut i: usize = 0;
    while i < a.len()
        invariant
            a.len() == b.len(),
            i <= a.len(),
            forall|j: int| 0 <= j < i ==> a@[j] == b@[j],
        decreases a.len() - i,
    {
        if a[i] != b[i] {
            return false;
        }
        i += 1;
    }
    assert(a@ =~= b@);
    true
}

} // verus!
