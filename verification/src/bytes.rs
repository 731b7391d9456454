//! Comparing and searching byte strings.

use vstd::prelude::*;

verus! {

/// Whether two byte strings are equal.
pub fn bytes_equal(a: &[u8], b: &[u8]) -> (equal: bool)
    ensures
        equal == (a@ == b@),
{
    if a.len() != b.len() {
        return false;
    }
    let mut i: usize = 0;
    while i < a.len()
        invariant
            a@.len() == b@.len(),
            i <= a@.len(),
            forall|j: int| 0 <= j < i ==> a@[j] == b@[j],
        decreases a@.len() - i,
    {
        if a[i] != b[i] {
            return false;
        }
        i += 1;
    }
    assert(a@ =~= b@);
    true
}

/// Whether `needle` occurs among `items`.
pub fn contains_bytes(items: &Vec<Vec<u8>>, needle: &[u8]) -> (found: bool)
    ensures
        found == exists|j: int| 0 <= j < items@.len() && (#[trigger] items@[j])@ == needle@,
{
    let mut i: usize = 0;
    while i < items.len()
        invariant
            i <= items@.len(),
            forall|j: int| 0 <= j < i ==> (#[trigger] items@[j])@ != needle@,
        decreases items@.len() - i,
    {
        if bytes_equal(items[i].as_slice(), needle) {
            return true;
        }
        i += 1;
    }
    false
}

} // verus!
