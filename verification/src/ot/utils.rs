//! Bits and bytes: conversions between the two, and the transposition of a
//! bit matrix.

use vstd::prelude::*;

verus! {

/// Bit `k` of a byte, counted from its most significant bit.
pub open spec fn bit_at(byte: u8, k: int) -> bool {
    (byte >> ((7 - k) as u8)) & 1u8 == 1u8
}

/// Bit `i` of a byte string, counted from the most significant bit of its
/// first byte.
pub open spec fn bit_of(bytes: Seq<u8>, i: int) -> bool {
    bit_at(bytes[i / 8], i % 8)
}

/// The bits of a byte string, eight per byte, most significant first.
pub open spec fn bits_of(bytes: Seq<u8>) -> Seq<bool> {
    Seq::new(8 * bytes.len(), |i: int| bit_of(bytes, i))
}

/// Bit `i` of `bits`, where bits past the end count as clear.
pub open spec fn bit_or_clear(bits: Seq<bool>, i: int) -> bool {
    0 <= i < bits.len() && bits[i]
}

/// The byte whose eight bits, most significant first, are the first `count`
/// of the bits of `bits` from `start` on, followed by clear bits, shifted down
/// so that the last of them is the least significant.
pub open spec fn fold_bits(bits: Seq<bool>, start: int, count: nat) -> u8
    decreases count,
{
    if count == 0 {
        0u8
    } else {
        (fold_bits(bits, start, (count - 1) as nat) << 1u8) | if bit_or_clear(
            bits,
            start + count - 1,
        ) {
            1u8
        } else {
            0u8
        }
    }
}

/// The bytes that hold `bits`, eight per byte, most significant first; the
/// last byte is filled up with clear bits.
pub open spec fn bytes_of(bits: Seq<bool>) -> Seq<u8> {
    Seq::new((bits.len() + 7) / 8, |k: int| fold_bits(bits, 8 * k, 8))
}

/// Splits each byte into its eight bits.
pub fn u8vec_to_boolvec(v: &[u8]) -> (bv: Vec<bool>)
    ensures
        bv@ == bits_of(v@),
{
    let len = v.len();
    let mut bv: Vec<bool> = Vec::new();
    let mut i: usize = 0;
    while i < len
        invariant
            i <= len == v@.len(),
            bv@.len() == 8 * i,
            forall|k: int| 0 <= k < 8 * i ==> bv@[k] == bit_of(v@, k),
        decreases len - i,
    {
        let byte = v[i];
        let mut j: u8 = 0;
        while j < 8
            invariant
                j <= 8,
                i < len == v@.len(),
                byte == v@[i as int],
                bv@.len() == 8 * i + j,
                forall|k: int| 0 <= k < 8 * i + j ==> bv@[k] == bit_of(v@, k),
            decreases 8 - j,
        {
            bv.push((byte >> (7 - j)) & 1 == 1);
            j += 1;
        }
        i += 1;
    }
    assert(bv@ =~= bits_of(v@));
    bv
}

/// Packs bits into bytes, eight per byte.
pub fn boolvec_to_u8vec(bv: &[bool]) -> (v: Vec<u8>)
    ensures
        v@ == bytes_of(bv@),
{
    let len = bv.len();
    let count: usize = len / 8 + if len % 8 == 0 {
        0
    } else {
        1
    };
    let mut v: Vec<u8> = Vec::new();
    let mut k: usize = 0;
    while k < count
        invariant
            k <= count,
            len == bv@.len(),
            count == (len + 7) / 8,
            v@.len() == k,
            forall|n: int| 0 <= n < k ==> v@[n] == fold_bits(bv@, 8 * n, 8),
        decreases count - k,
    {
        let mut byte: u8 = 0;
        let mut j: usize = 0;
        while j < 8
            invariant
                j <= 8,
                k < count,
                len == bv@.len(),
                count == (len + 7) / 8,
                byte == fold_bits(bv@, 8 * k, j as nat),
            decreases 8 - j,
        {
            let index = 8 * k + j;
            let bit: u8 = if index < len && bv[index] {
                1
            } else {
                0
            };
            byte = (byte << 1) | bit;
            j += 1;
        }
        v.push(byte);
        k += 1;
    }
    assert(v@ =~= bytes_of(bv@));
    v
}

/// The first `count` of 128 bits packed into a number, the first bit
/// foremost.
pub open spec fn pack(bits: spec_fn(int) -> bool, count: nat) -> u128
    decreases count,
{
    if count == 0 {
        0u128
    } else {
        (pack(bits, (count - 1) as nat) << 1u128) | if bits(count - 1) {
            1u128
        } else {
            0u128
        }
    }
}

/// The bits of a sequence packed into a number, the first bit foremost.
pub open spec fn pack_bits(bits: Seq<bool>) -> u128 {
    pack(|j: int| bits[j], bits.len())
}

/// Column `i` of the bit matrix whose rows are `rows`, packed into a number,
/// the first row foremost.
pub open spec fn column(rows: Seq<Seq<u8>>, i: int) -> u128 {
    pack(|j: int| bit_of(rows[j], i), rows.len())
}

/// The transpose of a bit matrix of 128 rows: one number per column.
pub open spec fn transposed(rows: Seq<Seq<u8>>, columns: nat) -> Seq<u128> {
    Seq::new(columns, |i: int| column(rows, i))
}

/// Packs up to 128 bits into a number, the first bit foremost.
pub fn pack_boolvec(bits: &[bool]) -> (packed: u128)
    requires
        bits@.len() <= 128,
    ensures
        packed == pack_bits(bits@),
{
    let len = bits.len();
    let mut packed: u128 = 0;
    let mut j: usize = 0;
    while j < len
        invariant
            j <= len == bits@.len(),
            packed == pack(|n: int| bits@[n], j as nat),
        decreases len - j,
    {
        let bit: u128 = if bits[j] {
            1
        } else {
            0
        };
        packed = (packed << 1) | bit;
        j += 1;
    }
    packed
}

/// Transposes a bit matrix of `m.len()` rows, each with at least `columns`
/// bits, into one number per column.
pub fn transpose(m: &Vec<Vec<u8>>, columns: usize) -> (t: Vec<u128>)
    requires
        m@.len() <= 128,
        forall|j: int| 0 <= j < m@.len() ==> columns <= 8 * (#[trigger] m@[j])@.len(),
    ensures
        t@ == transposed(rows_of(m@), columns as nat),
{
    let height = m.len();
    let ghost rows = rows_of(m@);
    let mut t: Vec<u128> = Vec::new();
    let mut i: usize = 0;
    while i < columns
        invariant
            i <= columns,
            height == m@.len() <= 128,
            rows == rows_of(m@),
            forall|j: int| 0 <= j < m@.len() ==> columns <= 8 * (#[trigger] m@[j])@.len(),
            t@.len() == i,
            forall|n: int| 0 <= n < i ==> t@[n] == column(rows, n),
        decreases columns - i,
    {
        let mut packed: u128 = 0;
        let mut j: usize = 0;
        while j < height
            invariant
                j <= height == m@.len() <= 128,
                i < columns,
                rows == rows_of(m@),
                forall|j: int| 0 <= j < m@.len() ==> columns <= 8 * (#[trigger] m@[j])@.len(),
                packed == pack(|n: int| bit_of(rows[n], i as int), j as nat),
            decreases height - j,
        {
            let row = &m[j];
            let byte = row[i / 8];
            let shift: u8 = (7 - i % 8) as u8;
            let bit: u128 = if (byte >> shift) & 1 == 1 {
                1
            } else {
                0
            };
            packed = (packed << 1) | bit;
            j += 1;
        }
        t.push(packed);
        i += 1;
    }
    assert(t@ =~= transposed(rows, columns as nat));
    t
}

/// The rows of a matrix as byte strings.
pub open spec fn rows_of(m: Seq<Vec<u8>>) -> Seq<Seq<u8>> {
    Seq::new(m.len(), |j: int| m[j]@)
}

} // verus!
