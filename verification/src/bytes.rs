//! Small operations on byte strings.

use vstd::prelude::*;

verus! {

/// The concatenation of two byte strings.
pub fn join(first: &[u8], second: &[u8]) -> (joined: Vec<u8>)
    ensures
        joined@ == first@ + second@,
{
    let mut joined: Vec<u8> = Vec::new();
    let mut i: usize = 0;
    while i < first.len()
        invariant
            i <= first@.len(),
            joined@ == first@.subrange(0, i as int),
        decreases first@.len() - i,
    {
        joined.push(first[i]);
        assert(joined@ =~= first@.subrange(0, i + 1));
        i += 1;
    }
    let mut j: usize = 0;
    while j < second.len()
        invariant
            j <= second@.len(),
            joined@ == first@ + second@.subrange(0, j as int),
        decreases second@.len() - j,
    {
        joined.push(second[j]);
        assert(joined@ =~= first@ + second@.subrange(0, j + 1));
        j += 1;
    }
    assert(joined@ =~= first@ + second@);
    joined
}

/// A copy of the bytes of `data` from `start` up to `end`.
pub fn copy_range(data: &[u8], start: usize, end: usize) -> (out: Vec<u8>)
    requires
        start <= end <= data@.len(),
    ensures
        out@ == data@.subrange(start as int, end as int),
{
    let mut out: Vec<u8> = Vec::with_capacity(end - start);
    let mut i: usize = start;
    while i < end
        invariant
            start <= i <= end <= data@.len(),
            out@ == data@.subrange(start as int, i as int),
        decreases end - i,
    {
        out.push(data[i]);
        assert(out@ =~= data@.subrange(start as int, i + 1));
        i += 1;
    }
    out
}

/// A copy of `data`.
pub fn to_vec(data: &[u8]) -> (out: Vec<u8>)
    ensures
        out@ == data@,
{
    let out = copy_range(data, 0, data.len());
    assert(data@.subrange(0, data@.len() as int) =~= data@);
    out
}

/// Tells whether two byte strings are equal.
pub fn bytes_eq(first: &[u8], second: &[u8]) -> (equal: bool)
    ensures
        equal == (first@ == second@),
{
    if first.len() != second.len() {
        return false;
    }
    let mut i: usize = 0;
    while i < first.len()
        invariant
            i <= first@.len(),
            first@.len() == second@.len(),
            forall|k: int| 0 <= k < i ==> first@[k] == second@[k],
        decreases first@.len() - i,
    {
        if first[i] != second[i] {
            return false;
        }
        i += 1;
    }
    assert(first@ =~= second@);
    true
}

/// The four bytes of `data` from `start` on.
pub fn array4(data: &[u8], start: usize) -> (out: [u8; 4])
    requires
        start + 4 <= data@.len(),
    ensures
        out@ == data@.subrange(start as int, start + 4),
{
    let out: [u8; 4] = [data[start], data[start + 1], data[start + 2], data[start + 3]];
    assert(out@ =~= data@.subrange(start as int, start + 4));
    out
}

/// The eight bytes of `data` from `start` on.
pub fn array8(data: &[u8], start: usize) -> (out: [u8; 8])
    requires
        start + 8 <= data@.len(),
    ensures
        out@ == data@.subrange(start as int, start + 8),
{
    let len = data.len();
    let mut out: [u8; 8] = [0u8; 8];
    let mut i: usize = 0;
    while i < 8
        invariant
            i <= 8,
            start + 8 <= data@.len() == len,
            forall|k: int| 0 <= k < i ==> out@[k] == data@[start + k],
        decreases 8 - i,
    {
        out[i] = data[start + i];
        i += 1;
    }
    assert(out@ =~= data@.subrange(start as int, start + 8));
    out
}

/// The thirty-two bytes of `data`.
pub fn array32(data: &[u8]) -> (out: [u8; 32])
    requires
        data@.len() == 32,
    ensures
        out@ == data@,
{
    let mut out: [u8; 32] = [0u8; 32];
    let mut i: usize = 0;
    while i < 32
        invariant
            i <= 32 == data@.len(),
            forall|k: int| 0 <= k < i ==> out@[k] == data@[k],
        decreases 32 - i,
    {
        out[i] = data[i];
        i += 1;
    }
    assert(out@ =~= data@);
    out
}

/// The sixteen bytes of `data` from `start` on.
pub fn array16(data: &[u8], start: usize) -> (out: [u8; 16])
    requires
        start + 16 <= data@.len(),
    ensures
        out@ == data@.subrange(start as int, start + 16),
{
    let len = data.len();
    let mut out: [u8; 16] = [0u8; 16];
    let mut i: usize = 0;
    while i < 16
        invariant
            i <= 16,
            start + 16 <= data@.len() == len,
            forall|k: int| 0 <= k < i ==> out@[k] == data@[start + k],
        decreases 16 - i,
    {
        out[i] = data[start + i];
        i += 1;
    }
    assert(out@ =~= data@.subrange(start as int, start + 16));
    out
}

} // verus!
