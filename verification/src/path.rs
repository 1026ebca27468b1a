//! File paths as keys.

use vstd::prelude::*;

verus! {

/// A file path, with its two uses told apart: `key` holds the bytes of the path
/// with its components normalised, by which two paths are compared, and `shown`
/// is how the path reads in a message.
#[derive(Debug)]
pub struct AssetPath {
    pub key: Vec<u8>,
    pub shown: String,
}

/// Whether two byte strings are equal.
pub(crate) fn same_bytes(a: &Vec<u8>, b: &Vec<u8>) -> (same: bool)
    ensures
        same == (a@ == b@),
{
    if a.len() != b.len() {
        return false;
    }
    let mut i: usize = 0;
    while i < a.len()
        invariant
            i <= a.len(),
            a.len() == b.len(),
            forall|k: int| 0 <= k < i ==> a@[k] == b@[k],
        decreases a.len() - i,
    {
        if a[i] != b[i] {
            return false;
        }
        i += 1;
    }
    assert(a@ =~= b@);
    true
}

/// A copy of a byte string.
pub(crate) fn copy_bytes(bytes: &Vec<u8>) -> (copy: Vec<u8>)
    ensures
        copy@ == bytes@,
{
    let mut copy: Vec<u8> = Vec::new();
    let mut i: usize = 0;
    while i < bytes.len()
        invariant
            i <= bytes.len(),
            copy@ == bytes@.take(i as int),
        decreases bytes.len() - i,
    {
        copy.push(bytes[i]);
        i += 1;
        assert(copy@ =~= bytes@.take(i as int));
    }
    assert(copy@ =~= bytes@);
    copy
}

} // verus!
