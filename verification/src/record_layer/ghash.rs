//! GHASH, the polynomial hash of GCM, over blocks read as 128-bit big-endian
//! numbers, and the tag built from it.

use crate::bytes::{array16, bytes_eq, to_vec};
use crate::error::{MpcTlsError, TlsRole};
use vstd::prelude::*;

verus! {

/// The reduction constant of the field: the block `11100001 || 0^120`.
pub const REDUCTION: u128 = 0xe100_0000_0000_0000_0000_0000_0000_0000;

/// The first `count` bytes of `data`, zero-padded on the right where `data`
/// is shorter, read as a big-endian number.
pub open spec fn be_fold(data: Seq<u8>, count: nat) -> u128
    decreases count,
{
    if count == 0 {
        0u128
    } else {
        let byte: u8 = if count - 1 < data.len() {
            data[count - 1]
        } else {
            0u8
        };
        (be_fold(data, (count - 1) as nat) << 8u128) | (byte as u128)
    }
}

/// One block of at most sixteen bytes, zero-padded, as a number.
pub open spec fn block_value(data: Seq<u8>) -> u128 {
    be_fold(data, 16)
}

/// The sixteen big-endian bytes of a number.
pub open spec fn block_bytes(value: u128) -> Seq<u8> {
    Seq::new(16, |i: int| ((value >> ((120 - 8 * i) as u128)) & 0xffu128) as u8)
}

/// State of the field multiplication after `step` bits of `x`: the partial
/// product `z` and the running multiple `v`, carried through the remaining
/// bits. Bit 0 of `x` is its most significant bit.
pub open spec fn gf_mul_from(x: u128, v: u128, z: u128, step: nat) -> u128
    decreases 128 - step,
{
    if step >= 128 {
        z
    } else {
        let z_next = if (x >> ((127 - step) as u128)) & 1u128 == 1u128 {
            z ^ v
        } else {
            z
        };
        let v_next = if v & 1u128 == 1u128 {
            (v >> 1u128) ^ REDUCTION
        } else {
            v >> 1u128
        };
        gf_mul_from(x, v_next, z_next, step + 1)
    }
}

/// Product of two blocks in GF(2^128) as GCM defines it.
pub open spec fn gf_mul(x: u128, y: u128) -> u128 {
    gf_mul_from(x, y, 0u128, 0)
}

/// The hash state after absorbing `data` in sixteen-byte blocks, the last
/// one zero-padded, starting from state `y`.
pub open spec fn ghash_update(h: u128, y: u128, data: Seq<u8>) -> u128
    decreases data.len(),
{
    if data.len() == 0 {
        y
    } else if data.len() <= 16 {
        gf_mul(y ^ block_value(data), h)
    } else {
        ghash_update(h, gf_mul(y ^ block_value(data.subrange(0, 16)), h), data.skip(16))
    }
}

/// Longest input, in bytes, whose bit length fits the 64 bits that the closing
/// block gives it.
pub const MAX_HASHED_LEN: u64 = 0x1fff_ffff_ffff_ffff;

/// The closing block: bit lengths of the associated data and of the
/// ciphertext, 64 bits each.
pub open spec fn length_block(aad_len: nat, ciphertext_len: nat) -> u128
    recommends
        aad_len <= MAX_HASHED_LEN,
        ciphertext_len <= MAX_HASHED_LEN,
{
    (((aad_len * 8) as u128) << 64u128) | ((ciphertext_len * 8) as u128)
}

/// GHASH under subkey `h` of the padded associated data, the padded
/// ciphertext and the closing length block.
pub open spec fn ghash(h: u128, aad: Seq<u8>, ciphertext: Seq<u8>) -> u128 {
    gf_mul(
        ghash_update(h, ghash_update(h, 0u128, aad), ciphertext) ^ length_block(
            aad.len(),
            ciphertext.len(),
        ),
        h,
    )
}

/// The authentication tag: GHASH masked with the encrypted counter-one block.
pub open spec fn tag_bytes(h: Seq<u8>, j0: Seq<u8>, aad: Seq<u8>, ciphertext: Seq<u8>) -> Seq<u8> {
    block_bytes(ghash(block_value(h), aad, ciphertext) ^ block_value(j0))
}

/// Multiplying by zero gives zero, from any step on.
pub proof fn lemma_gf_mul_zero(x: u128, z: u128, step: nat)
    ensures
        gf_mul_from(x, 0u128, z, step) == z,
    decreases 128 - step,
{
    if step < 128 {
        assert(0u128 & 1u128 != 1u128 && 0u128 >> 1u128 == 0u128 && z ^ 0u128 == z)
            by (bit_vector);
        lemma_gf_mul_zero(x, z, step + 1);
    }
}

/// Under the hash subkey zero every input hashes to zero, so the tag no
/// longer depends on what it is meant to authenticate: the one subkey under
/// which an altered ciphertext is sure to pass.
pub proof fn lemma_ghash_zero_subkey(aad: Seq<u8>, ciphertext: Seq<u8>)
    ensures
        ghash(0u128, aad, ciphertext) == 0u128,
{
    let state = ghash_update(0u128, ghash_update(0u128, 0u128, aad), ciphertext) ^ length_block(
        aad.len(),
        ciphertext.len(),
    );
    lemma_gf_mul_zero(state, 0u128, 0);
}

/// Reads at most sixteen bytes of `data`, from `start`, as a zero-padded
/// big-endian block.
pub fn read_block(data: &[u8], start: usize) -> (value: u128)
    requires
        start <= data@.len(),
    ensures
        value == block_value(
            data@.subrange(
                start as int,
                if data@.len() - start < 16 {
                    data@.len() as int
                } else {
                    start + 16
                },
            ),
        ),
{
    let ghost end: int = if data@.len() - start < 16 {
        data@.len() as int
    } else {
        start + 16
    };
    let ghost chunk = data@.subrange(start as int, end);
    let mut value: u128 = 0;
    let mut i: usize = 0;
    while i < 16
        invariant
            i <= 16,
            start <= data@.len(),
            chunk == data@.subrange(start as int, end),
            end == if data@.len() - start < 16 {
                data@.len() as int
            } else {
                start + 16
            },
            value == be_fold(chunk, i as nat),
        decreases 16 - i,
    {
        let byte: u8 = if i < data.len() - start {
            data[start + i]
        } else {
            0u8
        };
        value = (value << 8u128) | (byte as u128);
        i += 1;
    }
    value
}

/// Writes a block out as its sixteen big-endian bytes.
pub fn write_block(value: u128) -> (bytes: [u8; 16])
    ensures
        bytes@ == block_bytes(value),
{
    let mut bytes: [u8; 16] = [0u8; 16];
    let mut i: usize = 0;
    while i < 16
        invariant
            i <= 16,
            forall|j: int|
                0 <= j < i ==> bytes@[j] == ((value >> ((120 - 8 * j) as u128)) & 0xffu128) as u8,
        decreases 16 - i,
    {
        let shift: u128 = (120 - 8 * i) as u128;
        let low: u128 = (value >> shift) & 0xffu128;
        assert(low < 0x100) by (bit_vector)
            requires
                low == (value >> shift) & 0xffu128,
        ;
        bytes[i] = low as u8;
        i += 1;
    }
    assert(bytes@ =~= block_bytes(value));
    bytes
}

/// Multiplies two blocks in the field.
pub fn multiply(x: u128, y: u128) -> (product: u128)
    ensures
        product == gf_mul(x, y),
{
    let mut z: u128 = 0;
    let mut v: u128 = y;
    let mut step: u32 = 0;
    while step < 128
        invariant
            step <= 128,
            gf_mul_from(x, v, z, step as nat) == gf_mul(x, y),
        decreases 128 - step,
    {
        let shift: u128 = (127 - step) as u128;
        if (x >> shift) & 1u128 == 1u128 {
            z = z ^ v;
        }
        if v & 1u128 == 1u128 {
            v = (v >> 1u128) ^ REDUCTION;
        } else {
            v = v >> 1u128;
        }
        step += 1;
    }
    z
}

/// Absorbs `data` into the hash state `y`.
pub fn absorb(h: u128, y: u128, data: &[u8]) -> (state: u128)
    ensures
        state == ghash_update(h, y, data@),
{
    let mut state: u128 = y;
    let mut offset: usize = 0;
    assert(data@.skip(0) =~= data@);
    while offset < data.len()
        invariant
            offset <= data@.len(),
            ghash_update(h, state, data@.skip(offset as int)) == ghash_update(h, y, data@),
        decreases data@.len() - offset,
    {
        let ghost rest = data@.skip(offset as int);
        let block = read_block(data, offset);
        let next = multiply(state ^ block, h);
        if data.len() - offset <= 16 {
            proof {
                assert(data@.subrange(offset as int, data@.len() as int) =~= rest);
                assert(rest.skip(rest.len() as int) =~= Seq::<u8>::empty());
                assert(data@.skip(data@.len() as int) =~= Seq::<u8>::empty());
            }
            state = next;
            offset = data.len();
        } else {
            proof {
                assert(data@.subrange(offset as int, offset + 16) =~= rest.subrange(0, 16));
                assert(rest.skip(16) =~= data@.skip(offset + 16));
            }
            state = next;
            offset += 16;
        }
    }
    proof {
        assert(data@.skip(offset as int) =~= Seq::<u8>::empty());
    }
    state
}

/// Computes the tag of `ciphertext` with associated data `aad` under hash
/// subkey `h`, masked with `j0`.
pub fn compute_tag(h: &[u8; 16], j0: &[u8; 16], aad: &[u8], ciphertext: &[u8]) -> (tag: [u8; 16])
    requires
        aad@.len() <= MAX_HASHED_LEN,
        ciphertext@.len() <= MAX_HASHED_LEN,
    ensures
        tag@ == tag_bytes(h@, j0@, aad@, ciphertext@),
{
    let subkey = read_block(h.as_slice(), 0);
    let mask = read_block(j0.as_slice(), 0);
    assert(h@.subrange(0, 16) =~= h@);
    assert(j0@.subrange(0, 16) =~= j0@);
    let state = absorb(subkey, 0, aad);
    let state = absorb(subkey, state, ciphertext);
    let aad_bits: u64 = aad.len() as u64 * 8;
    let ciphertext_bits: u64 = ciphertext.len() as u64 * 8;
    let lengths: u128 = ((aad_bits as u128) << 64u128) | (ciphertext_bits as u128);
    let hash = multiply(state ^ lengths, subkey);
    write_block(hash ^ mask)
}

/// The hash engine, bound to the hash subkey H.
#[derive(Debug, Clone, Copy)]
pub struct GhashCompute {
    h: [u8; 16],
}

impl GhashCompute {
    /// The subkey the engine is bound to.
    pub closed spec fn subkey(&self) -> Seq<u8> {
        self.h@
    }

    /// Binds an engine to the subkey `h`.
    pub fn new(h: [u8; 16]) -> (engine: GhashCompute)
        ensures
            engine.subkey() == h@,
    {
        GhashCompute { h }
    }
}

/// What computing a tag yields: the tag, or the reason the inputs are
/// refused. The mask must be one block; the hashed inputs must be short
/// enough for their bit lengths to fit the closing block.
pub open spec fn tag_outcome(h: Seq<u8>, j0: Seq<u8>, aad: Seq<u8>, ciphertext: Seq<u8>) -> Result<
    Seq<u8>,
    MpcTlsError,
> {
    if j0.len() != 16 {
        Err(MpcTlsError::Internal)
    } else if aad.len() > MAX_HASHED_LEN || ciphertext.len() > MAX_HASHED_LEN {
        Err(MpcTlsError::Capacity)
    } else {
        Ok(tag_bytes(h, j0, aad, ciphertext))
    }
}

/// An authentication tag.
#[derive(Debug, Clone, Copy)]
pub struct Tag([u8; 16]);

impl Tag {
    /// The sixteen bytes of the tag.
    pub closed spec fn bytes(&self) -> Seq<u8> {
        self.0@
    }

    /// Computes the tag of `ciphertext` with associated data `aad`, masked
    /// with `j0`.
    pub fn compute(
        ghash: &GhashCompute,
        j0: Vec<u8>,
        ciphertext: &Vec<u8>,
        aad: Vec<u8>,
    ) -> (outcome: Result<Tag, MpcTlsError>)
        ensures
            match outcome {
                Ok(tag) => tag_outcome(ghash.subkey(), j0@, aad@, ciphertext@) == Ok::<
                    Seq<u8>,
                    MpcTlsError,
                >(tag.bytes()),
                Err(error) => tag_outcome(ghash.subkey(), j0@, aad@, ciphertext@) == Err::<
                    Seq<u8>,
                    MpcTlsError,
                >(error),
            },
    {
        if j0.len() != 16 {
            return Err(MpcTlsError::Internal);
        }
        if aad.len() as u64 > MAX_HASHED_LEN || ciphertext.len() as u64 > MAX_HASHED_LEN {
            return Err(MpcTlsError::Capacity);
        }
        let mask = array16(j0.as_slice(), 0);
        assert(j0@.subrange(0, 16) =~= j0@);
        Ok(Tag(compute_tag(&ghash.h, &mask, aad.as_slice(), ciphertext.as_slice())))
    }

    /// The tag as a vector of sixteen bytes.
    pub fn into_inner(self) -> (bytes: Vec<u8>)
        ensures
            bytes@ == self.bytes(),
    {
        to_vec(self.0.as_slice())
    }

    /// Checks the tag a record came with against this one. Both parties take
    /// part, whatever their role; the record is authentic exactly when the two
    /// tags are equal.
    pub fn verify(self, role: TlsRole, purported_tag: Vec<u8>) -> (outcome: Result<(), MpcTlsError>)
        ensures
            outcome is Ok <==> purported_tag@ == self.bytes(),
            outcome is Err ==> outcome->Err_0 == MpcTlsError::AeadTagMismatch,
    {
        if bytes_eq(purported_tag.as_slice(), self.0.as_slice()) {
            Ok(())
        } else {
            Err(MpcTlsError::AeadTagMismatch)
        }
    }
}

} // verus!
