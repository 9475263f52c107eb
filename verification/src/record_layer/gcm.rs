//! AES-128-GCM on one record as a single party computes it with the write key
//! in hand: what the joint computation must equal, and what the leader runs
//! locally once the keys have been revealed to it.

use crate::bytes::{bytes_eq, join};
use crate::cipher::{
    aes128_encrypt, counter_covers, j0_block, keystream_apply, lemma_keystream_apply_involution,
    Keystream, START_COUNTER,
};
use crate::error::MpcTlsError;
use crate::record_layer::ghash::{compute_tag, tag_bytes, GhashCompute};
use vstd::prelude::*;

verus! {

/// The hash subkey that belongs to a write key: the all-zero block encrypted
/// under it.
pub open spec fn hash_subkey(key: Seq<u8>) -> Seq<u8> {
    aes128_encrypt(key, Seq::new(16, |i: int| 0u8))
}

/// The ciphertext of `plaintext`: the keystream from the first payload
/// counter applied to it.
pub open spec fn gcm_ciphertext(
    key: Seq<u8>,
    iv: Seq<u8>,
    nonce: Seq<u8>,
    plaintext: Seq<u8>,
) -> Seq<u8> {
    keystream_apply(key, iv, nonce, START_COUNTER, plaintext)
}

/// The tag that authenticates `ciphertext` together with `aad`.
pub open spec fn gcm_tag(
    key: Seq<u8>,
    iv: Seq<u8>,
    nonce: Seq<u8>,
    aad: Seq<u8>,
    ciphertext: Seq<u8>,
) -> Seq<u8> {
    tag_bytes(hash_subkey(key), j0_block(key, iv, nonce), aad, ciphertext)
}

/// Ciphertext followed by tag.
pub open spec fn gcm_seal(
    key: Seq<u8>,
    iv: Seq<u8>,
    nonce: Seq<u8>,
    aad: Seq<u8>,
    plaintext: Seq<u8>,
) -> Seq<u8> {
    let ciphertext = gcm_ciphertext(key, iv, nonce, plaintext);
    ciphertext + gcm_tag(key, iv, nonce, aad, ciphertext)
}

/// The plaintext of `ciphertext`, released only when `tag` is the tag of
/// `ciphertext` and `aad`.
pub open spec fn gcm_open(
    key: Seq<u8>,
    iv: Seq<u8>,
    nonce: Seq<u8>,
    aad: Seq<u8>,
    ciphertext: Seq<u8>,
    tag: Seq<u8>,
) -> Option<Seq<u8>> {
    if tag == gcm_tag(key, iv, nonce, aad, ciphertext) {
        Some(gcm_ciphertext(key, iv, nonce, ciphertext))
    } else {
        None
    }
}

/// True when a message of `len` bytes can be sealed or opened: one nonce
/// covers it.
pub open spec fn sealable(len: nat) -> bool {
    counter_covers(START_COUNTER, len)
}

/// Decrypting what was encrypted, under the same key, nonce and associated
/// data, gives the plaintext back.
pub proof fn lemma_open_seal(
    key: Seq<u8>,
    iv: Seq<u8>,
    nonce: Seq<u8>,
    aad: Seq<u8>,
    plaintext: Seq<u8>,
)
    ensures
        gcm_open(
            key,
            iv,
            nonce,
            aad,
            gcm_ciphertext(key, iv, nonce, plaintext),
            gcm_tag(key, iv, nonce, aad, gcm_ciphertext(key, iv, nonce, plaintext)),
        ) == Some(plaintext),
        gcm_seal(key, iv, nonce, aad, plaintext).len() == plaintext.len() + 16,
{
    lemma_keystream_apply_involution(key, iv, nonce, START_COUNTER, plaintext);
}

/// A record whose tag differs from the tag of its ciphertext and associated
/// data is not opened, whichever of the three was altered.
pub proof fn lemma_open_rejects_tampering(
    key: Seq<u8>,
    iv: Seq<u8>,
    nonce: Seq<u8>,
    aad: Seq<u8>,
    ciphertext: Seq<u8>,
    tag: Seq<u8>,
)
    requires
        tag != gcm_tag(key, iv, nonce, aad, ciphertext),
    ensures
        gcm_open(key, iv, nonce, aad, ciphertext, tag) is None,
{
}

/// The hash engine that belongs to a keystream generator.
pub fn ghash_for(keystream: &Keystream) -> (engine: GhashCompute)
    ensures
        engine.subkey() == hash_subkey(keystream.key()),
{
    GhashCompute::new(keystream.hash_subkey())
}

/// Seals `plaintext` under the write key of `keystream`: ciphertext, then
/// tag. A plaintext too long for one nonce is refused.
pub fn seal(
    keystream: &Keystream,
    nonce: &[u8; 8],
    aad: &[u8; 13],
    plaintext: &Vec<u8>,
) -> (outcome: Result<Vec<u8>, MpcTlsError>)
    ensures
        outcome is Ok <==> sealable(plaintext@.len()),
        outcome is Err ==> outcome->Err_0 == MpcTlsError::Capacity,
        outcome is Ok ==> outcome->Ok_0@ == gcm_seal(
            keystream.key(),
            keystream.iv(),
            nonce@,
            aad@,
            plaintext@,
        ),
{
    if keystream.chunk_sufficient(plaintext.len()).is_err() {
        return Err(MpcTlsError::Capacity);
    }
    let ciphertext = keystream.transform(nonce, START_COUNTER, plaintext);
    let j0 = keystream.j0_value(nonce);
    let h = keystream.hash_subkey();
    let tag = compute_tag(&h, &j0, aad.as_slice(), ciphertext.as_slice());
    Ok(join(ciphertext.as_slice(), tag.as_slice()))
}

/// Opens a record under the write key of `keystream`: the plaintext, if and
/// only if `tag` authenticates `ciphertext` and `aad`.
pub fn open(
    keystream: &Keystream,
    nonce: &[u8; 8],
    aad: &[u8; 13],
    ciphertext: &Vec<u8>,
    tag: &[u8],
) -> (outcome: Result<Vec<u8>, MpcTlsError>)
    ensures
        match outcome {
            Ok(plaintext) => sealable(ciphertext@.len()) && gcm_open(
                keystream.key(),
                keystream.iv(),
                nonce@,
                aad@,
                ciphertext@,
                tag@,
            ) == Some(plaintext@),
            Err(error) => if !sealable(ciphertext@.len()) {
                error == MpcTlsError::Capacity
            } else {
                error == MpcTlsError::AeadTagMismatch && gcm_open(
                    keystream.key(),
                    keystream.iv(),
                    nonce@,
                    aad@,
                    ciphertext@,
                    tag@,
                ) is None
            },
        },
{
    if keystream.chunk_sufficient(ciphertext.len()).is_err() {
        return Err(MpcTlsError::Capacity);
    }
    let j0 = keystream.j0_value(nonce);
    let h = keystream.hash_subkey();
    let expected = compute_tag(&h, &j0, aad.as_slice(), ciphertext.as_slice());
    if !bytes_eq(tag, expected.as_slice()) {
        return Err(MpcTlsError::AeadTagMismatch);
    }
    Ok(keystream.transform(nonce, START_COUNTER, ciphertext))
}

} // verus!
