//! Small verified helpers on byte strings.

use vstd::prelude::*;

verus! {

/// Whether two byte strings hold the same bytes.
pub fn bytes_eq(a: &[u8], b: &[u8]) -> (same: bool)
    ensures
        same == (a@ == b@),
{
    if a.len() != b.len() {
        return false;
    }
    let mut i: usize = 0;
    while i < a.len()
        invariant
            a@.len() == b@.len(),
            i <= a@.len(),
            a@.subrange(0, i as int) == b@.subrange(0, i as int),
        decreases a@.len() - i,
    {
        if a[i] != b[i] {
            assert(a@[i as int] != b@[i as int]);
            return false;
        }
        assert(a@.subrange(0, i + 1) == a@.subrange(0, i as int).push(a@[i as int]));
        assert(b@.subrange(0, i + 1) == b@.subrange(0, i as int).push(b@[i as int]));
        i = i + 1;
    }
    assert(a@ == a@.subrange(0, i as int));
    assert(b@ == b@.subrange(0, i as int));
    true
}

/// Appends `src` to `out`.
pub fn append_bytes(out: &mut Vec<u8>, src: &[u8])
    ensures
        final(out)@ == old(out)@ + src@,
{
    let mut i: usize = 0;
    while i < src.len()
        invariant
            i <= src@.len(),
            out@ == old(out)@ + src@.subrange(0, i as int),
        decreases src@.len() - i,
    {
        out.push(src[i]);
        assert(src@.subrange(0, i + 1) == src@.subrange(0, i as int).push(src@[i as int]));
        i = i + 1;
    }
    assert(src@ == src@.subrange(0, i as int));
}

/// The 32 bytes of `data` that start at `offset`.
pub fn read_array_32(data: &[u8], offset: usize) -> (out: [u8; 32])
    requires
        offset + 32 <= data@.len(),
    ensures
        out@ == data@.subrange(offset as int, offset + 32),
{
    let len: usize = data.len();
    let mut out = [0u8; 32];
    let mut i: usize = 0;
    while i < 32
        invariant
            i <= 32,
            len == data@.len(),
            offset + 32 <= len,
            forall|j: int| 0 <= j < i ==> out@[j] == data@[offset + j],
        decreases 32 - i,
    {
        out[i] = data[offset + i];
        i = i + 1;
    }
    assert(out@ =~= data@.subrange(offset as int, offset + 32));
    out
}

/// The 20 bytes of `data` that start at `offset`.
pub fn read_array_20(data: &[u8], offset: usize) -> (out: [u8; 20])
    requires
        offset + 20 <= data@.len(),
    ensures
        out@ == data@.subrange(offset as int, offset + 20),
{
    let len: usize = data.len();
    let mut out = [0u8; 20];
    let mut i: usize = 0;
    while i < 20
        invariant
            i <= 20,
            len == data@.len(),
            offset + 20 <= len,
            forall|j: int| 0 <= j < i ==> out@[j] == data@[offset + j],
        decreases 20 - i,
    {
        out[i] = data[offset + i];
        i = i + 1;
    }
    assert(out@ =~= data@.subrange(offset as int, offset + 20));
    out
}

} // verus!
