//! The TLS 1.2 pseudorandom function over HMAC-SHA-256, and the secrets a
//! handshake derives with it.

use crate::bytes::{join, to_vec};
use vstd::prelude::*;
use vstd::string::StringSliceAdditionalSpecFns;

verus! {

/// Bytes of a master secret.
pub const MASTER_SECRET_LEN: usize = 48;

/// Bytes of the key block of an AES-128-GCM suite: two write keys and two
/// implicit IVs.
pub const KEY_BLOCK_LEN: usize = 40;

/// HMAC-SHA-256 of `message` under `key`.
pub uninterp spec fn hmac_sha256_mac(key: Seq<u8>, message: Seq<u8>) -> Seq<u8>;

/// `HMAC::mac` of the `hmac-sha256` crate, which takes the message first and the
/// key second and returns the 32-byte code. The result is named, not
/// described.
#[verifier::external_body]
fn hmac(key: &[u8], message: &[u8]) -> (mac: [u8; 32])
    ensures
        mac@ == hmac_sha256_mac(key@, message@),
{
    ::hmac_sha256::HMAC::mac(message, key)
}

/// The chain value A(i): the seed itself for `i` zero, the code of the value
/// before it otherwise.
pub open spec fn chain(secret: Seq<u8>, seed: Seq<u8>, i: nat) -> Seq<u8>
    decreases i,
{
    if i == 0 {
        seed
    } else {
        hmac_sha256_mac(secret, chain(secret, seed, (i - 1) as nat))
    }
}

/// The first `blocks` output blocks of P_SHA256: block `i`, counted from
/// one, is the code of A(i) followed by the seed.
pub open spec fn p_hash(secret: Seq<u8>, seed: Seq<u8>, blocks: nat) -> Seq<u8>
    decreases blocks,
{
    if blocks == 0 {
        Seq::<u8>::empty()
    } else {
        p_hash(secret, seed, (blocks - 1) as nat) + hmac_sha256_mac(
            secret,
            chain(secret, seed, blocks) + seed,
        )
    }
}

/// The first `len` bytes of the pseudorandom function on a secret, a label
/// and a seed.
pub open spec fn prf_bytes(secret: Seq<u8>, label: Seq<u8>, seed: Seq<u8>, len: nat) -> Seq<u8> {
    p_hash(secret, label + seed, (len + 31) / 32).subrange(0, len as int)
}

/// Evaluates the pseudorandom function and returns its first `len` bytes.
pub fn prf(secret: &[u8], label: &[u8], seed: &[u8], len: usize) -> (out: Vec<u8>)
    ensures
        out@ == prf_bytes(secret@, label@, seed@, len as nat),
        out@.len() == len,
{
    let full_seed = join(label, seed);
    let blocks: usize = len / 32 + if len % 32 == 0 {
        0
    } else {
        1
    };
    let mut out: Vec<u8> = Vec::new();
    let mut a: Vec<u8> = to_vec(full_seed.as_slice());
    let mut i: usize = 0;
    while i < blocks
        invariant
            i <= blocks,
            blocks == (len + 31) / 32,
            full_seed@ == label@ + seed@,
            a@ == chain(secret@, full_seed@, i as nat),
            out@ == p_hash(secret@, full_seed@, i as nat),
            out@.len() == 32 * i,
        decreases blocks - i,
    {
        let next = hmac(secret, a.as_slice());
        a = to_vec(next.as_slice());
        let input = join(a.as_slice(), full_seed.as_slice());
        let block = hmac(secret, input.as_slice());
        let extended = join(out.as_slice(), block.as_slice());
        out = extended;
        i += 1;
    }
    out.truncate(len);
    assert(out@ =~= prf_bytes(secret@, label@, seed@, len as nat));
    out
}

/// The label of the extended master secret.
pub open spec fn label_master_secret() -> Seq<u8> {
    "extended master secret".spec_bytes()
}

/// The label of the key expansion.
pub open spec fn label_key_expansion() -> Seq<u8> {
    "key expansion".spec_bytes()
}

/// The label of the client's Finished message.
pub open spec fn label_client_finished() -> Seq<u8> {
    "client finished".spec_bytes()
}

/// The label of the server's Finished message.
pub open spec fn label_server_finished() -> Seq<u8> {
    "server finished".spec_bytes()
}

/// The master secret: 48 bytes from the pre-master secret and the hash of the
/// handshake up to the client's key exchange.
pub open spec fn master_secret_bytes(pre_master_secret: Seq<u8>, session_hash: Seq<u8>) -> Seq<u8> {
    prf_bytes(pre_master_secret, label_master_secret(), session_hash, 48)
}

/// The key block: 40 bytes from the master secret and the two randoms, the
/// server's first.
pub open spec fn key_block_bytes(
    master_secret: Seq<u8>,
    server_random: Seq<u8>,
    client_random: Seq<u8>,
) -> Seq<u8> {
    prf_bytes(master_secret, label_key_expansion(), server_random + client_random, 40)
}

/// The client's Finished verify data: 12 bytes from the master secret and the
/// handshake hash.
pub open spec fn client_finished_bytes(master_secret: Seq<u8>, handshake_hash: Seq<u8>) -> Seq<u8> {
    prf_bytes(master_secret, label_client_finished(), handshake_hash, 12)
}

/// The server's Finished verify data: 12 bytes from the master secret and the
/// handshake hash.
pub open spec fn server_finished_bytes(master_secret: Seq<u8>, handshake_hash: Seq<u8>) -> Seq<u8> {
    prf_bytes(master_secret, label_server_finished(), handshake_hash, 12)
}

/// Derives the master secret.
pub fn master_secret(pre_master_secret: &[u8], session_hash: &[u8]) -> (secret: Vec<u8>)
    ensures
        secret@ == master_secret_bytes(pre_master_secret@, session_hash@),
        secret@.len() == 48,
{
    prf(pre_master_secret, "extended master secret".as_bytes(), session_hash, MASTER_SECRET_LEN)
}

/// Expands the master secret into the key block.
pub fn key_block(master_secret: &[u8], server_random: &[u8], client_random: &[u8]) -> (block: Vec<
    u8,
>)
    ensures
        block@ == key_block_bytes(master_secret@, server_random@, client_random@),
        block@.len() == 40,
{
    let seed = join(server_random, client_random);
    prf(master_secret, "key expansion".as_bytes(), seed.as_slice(), KEY_BLOCK_LEN)
}

/// Computes the client's Finished verify data.
pub fn client_finished(master_secret: &[u8], handshake_hash: &[u8]) -> (verify_data: Vec<u8>)
    ensures
        verify_data@ == client_finished_bytes(master_secret@, handshake_hash@),
        verify_data@.len() == 12,
{
    prf(master_secret, "client finished".as_bytes(), handshake_hash, 12)
}

/// Computes the server's Finished verify data.
pub fn server_finished(master_secret: &[u8], handshake_hash: &[u8]) -> (verify_data: Vec<u8>)
    ensures
        verify_data@ == server_finished_bytes(master_secret@, handshake_hash@),
        verify_data@.len() == 12,
{
    prf(master_secret, "server finished".as_bytes(), handshake_hash, 12)
}

} // verus!
