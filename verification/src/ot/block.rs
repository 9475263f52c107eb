//! Blocks of 128 bits.

use crate::cipher::{aes128_encrypt, aes128_encrypt_block};
use crate::record_layer::ghash::{block_bytes, block_value, read_block, write_block};
use vstd::prelude::*;

verus! {

/// A block of 128 bits, read as a big-endian number.
#[derive(Debug, Clone, Copy, PartialEq, Eq, Structural)]
pub struct Block(pub u128);

/// The block cipher on numbers: the encryption under `key` of the sixteen
/// big-endian bytes of `x`, read as a number again.
pub open spec fn permute(key: Seq<u8>, x: u128) -> u128 {
    block_value(aes128_encrypt(key, block_bytes(x)))
}

/// The tweakable hash of a block under a fixed key: the block is encrypted,
/// the tweak is mixed in, the result is encrypted again, and the first
/// encryption is mixed in at the end.
pub open spec fn tweak_hash(key: Seq<u8>, x: u128, tweak: usize) -> u128 {
    permute(key, permute(key, x) ^ (tweak as u128)) ^ permute(key, x)
}

impl Block {
    /// Creates a block from its number.
    pub fn new(b: u128) -> (block: Block)
        ensures
            block == Block(b),
    {
        Block(b)
    }

    /// The sixteen big-endian bytes of the block.
    pub fn to_be_bytes(&self) -> (bytes: [u8; 16])
        ensures
            bytes@ == block_bytes(self.0),
    {
        write_block(self.0)
    }

    /// The block with the given big-endian bytes.
    pub fn from_be_bytes(bytes: [u8; 16]) -> (block: Block)
        ensures
            block.0 == block_value(bytes@),
    {
        assert(bytes@.subrange(0, 16) =~= bytes@);
        Block(read_block(bytes.as_slice(), 0))
    }

    /// The bitwise exclusive or of two blocks.
    pub fn xor(self, other: Block) -> (block: Block)
        ensures
            block.0 == self.0 ^ other.0,
    {
        Block(self.0 ^ other.0)
    }

    /// The tweakable hash of the block under the cipher keyed with `key`.
    pub fn hash_tweak(&self, key: &[u8; 16], tweak: usize) -> (hash: Block)
        ensures
            hash.0 == tweak_hash(key@, self.0, tweak),
    {
        let label = self.to_be_bytes();
        let h1 = Block::from_be_bytes(aes128_encrypt_block(key, &label));
        let mixed = Block(h1.0 ^ (tweak as u128)).to_be_bytes();
        let h2 = Block::from_be_bytes(aes128_encrypt_block(key, &mixed));
        Block(h2.0 ^ h1.0)
    }
}

} // verus!
