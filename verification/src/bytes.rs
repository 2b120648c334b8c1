//! Small verified helpers on byte vectors.

use vstd::prelude::*;

verus! {

/// Whether two byte strings are equal.
pub fn bytes_equal(a: &[u8], b: &[u8]) -> (r: bool)
    ensures
        r == (a@ == b@),
{
    if a.len() != b.len() {
        return false;
    }
    let mut i: usize = 0;
    while i < a.len()
        invariant
            i <= a.len(),
            a.len() == b.len(),
            forall|j: int| 0 <= j < i ==> a@[j] == b@[j],
        decreases a.len() - i,
    {
        if a[i] != b[i] {
            return false;
        }
        i += 1;
    }
    assert(a@ =~= b@);
    true
}

/// Appends `data` to `out`.
pub fn append_bytes(out: &mut Vec<u8>, data: &[u8])
    ensures
        final(out)@ == old(out)@ + data@,
{
    let mut i: usize = 0;
    while i < data.len()
        invariant
            i <= data.len(),
            out@ == old(out)@ + data@.subrange(0, i as int),
        decreases data.len() - i,
    {
        out.push(data[i]);
        assert(out@ =~= old(out)@ + data@.subrange(0, i + 1));
        i += 1;
    }
    assert(data@.subrange(0, data.len() as int) =~= data@);
}

/// A fresh vector with the bytes of `data`.
pub fn copy_bytes(data: &[u8]) -> (r: Vec<u8>)
    ensures
        r@ == data@,
{
    let mut r: Vec<u8> = Vec::new();
    append_bytes(&mut r, data);
    assert(r@ =~= data@);
    r
}

/// The bytes of `data` from position `from` on.
pub fn bytes_from(data: &[u8], from: usize) -> (r: Vec<u8>)
    requires
        from <= data.len(),
    ensures
        r@ == data@.skip(from as int),
{
    let mut r: Vec<u8> = Vec::new();
    let mut i: usize = from;
    while i < data.len()
        invariant
            from <= i <= data.len(),
            r@ == data@.subrange(from as int, i as int),
        decreases data.len() - i,
    {
        r.push(data[i]);
        assert(r@ =~= data@.subrange(from as int, i + 1));
        i += 1;
    }
    assert(r@ =~= data@.skip(from as int));
    r
}

} // verus!
