use tls_mpc::cipher::Keystream;
use tls_mpc::error::MpcTlsError;
use tls_mpc::record_layer::gcm::{open, seal};
use tls_mpc::record_layer::ghash::{compute_tag, multiply, read_block, write_block};

fn hex(text: &str) -> Vec<u8> {
    let digits: Vec<u8> = text
        .bytes()
        .map(|c| match c {
            b'0'..=b'9' => c - b'0',
            b'a'..=b'f' => c - b'a' + 10,
            _ => panic!("not a hex digit"),
        })
        .collect();
    digits.chunks(2).map(|pair| pair[0] * 16 + pair[1]).collect()
}

fn array<const N: usize>(bytes: &[u8]) -> [u8; N] {
    let mut out = [0u8; N];
    out.copy_from_slice(bytes);
    out
}

#[test]
fn block_round_trip() {
    let bytes = hex("000102030405060708090a0b0c0d0e0f");
    let value = read_block(&bytes, 0);
    assert_eq!(value, 0x000102030405060708090a0b0c0d0e0fu128);
    assert_eq!(write_block(value).to_vec(), bytes);
}

#[test]
fn short_block_is_padded_on_the_right() {
    assert_eq!(read_block(&[0xab, 0xcd], 0), 0xabcdu128 << 112);
    assert_eq!(read_block(&[1, 2, 3], 3), 0);
}

#[test]
fn multiplying_by_the_unit_changes_nothing() {
    let unit = 1u128 << 127;
    let x = 0x66e94bd4ef8a2c3b884cfa59ca342b2eu128;
    assert_eq!(multiply(x, unit), x);
    assert_eq!(multiply(unit, x), x);
    assert_eq!(multiply(x, 0), 0);
}

#[test]
fn tag_of_the_empty_message_under_the_zero_key() {
    // AES-128 of the zero block under the zero key.
    let h = array::<16>(&hex("66e94bd4ef8a2c3b884cfa59ca342b2e"));
    let j0 = array::<16>(&hex("58e2fccefa7e3061367f1d57a4e7455a"));
    let tag = compute_tag(&h, &j0, &[], &[]);
    assert_eq!(tag.to_vec(), hex("58e2fccefa7e3061367f1d57a4e7455a"));
}

#[test]
fn tag_of_one_zero_block_under_the_zero_key() {
    let h = array::<16>(&hex("66e94bd4ef8a2c3b884cfa59ca342b2e"));
    let j0 = array::<16>(&hex("58e2fccefa7e3061367f1d57a4e7455a"));
    let ciphertext = hex("0388dace60b6a392f328c2b971b2fe78");
    let tag = compute_tag(&h, &j0, &[], &ciphertext);
    assert_eq!(tag.to_vec(), hex("ab6e47d42cec13bdf53a67b21257bddf"));
}

#[test]
fn seal_matches_the_zero_key_vector() {
    let keystream = Keystream::new([0u8; 16], [0u8; 4]);
    // The record layer always authenticates thirteen bytes; the vector has
    // none, so only the ciphertext is compared here.
    let sealed = seal(&keystream, &[0u8; 8], &[0u8; 13], &vec![0u8; 16]).unwrap();
    assert_eq!(sealed.len(), 32);
    assert_eq!(sealed[..16].to_vec(), hex("0388dace60b6a392f328c2b971b2fe78"));
}

#[test]
fn open_gives_back_what_seal_took() {
    let key = array::<16>(&hex("feffe9928665731c6d6a8f9467308308"));
    let keystream = Keystream::new(key, [0xca, 0xfe, 0xba, 0xbe]);
    let nonce = array::<8>(&hex("facedbaddecaf888"));
    let aad = [7u8; 13];
    for len in [0usize, 1, 15, 16, 17, 60, 64, 100] {
        let plaintext: Vec<u8> = (0..len).map(|i| (i * 7 + 3) as u8).collect();
        let sealed = seal(&keystream, &nonce, &aad, &plaintext).unwrap();
        assert_eq!(sealed.len(), len + 16);
        let (ciphertext, tag) = sealed.split_at(len);
        let opened = open(&keystream, &nonce, &aad, &ciphertext.to_vec(), tag).unwrap();
        assert_eq!(opened, plaintext);
    }
}

#[test]
fn seal_matches_the_four_block_vector() {
    let key = array::<16>(&hex("feffe9928665731c6d6a8f9467308308"));
    let keystream = Keystream::new(key, [0xca, 0xfe, 0xba, 0xbe]);
    let nonce = array::<8>(&hex("facedbaddecaf888"));
    let plaintext = [
        hex("d9313225f88406e5a55909c5aff5269a"),
        hex("86a7a9531534f7da2e4c303d8a318a72"),
        hex("1c3c0c95956809532fcf0e2449a6b525"),
        hex("b16aedf5aa0de657ba637b391aafd255"),
    ]
    .concat();
    let sealed = seal(&keystream, &nonce, &[0u8; 13], &plaintext).unwrap();
    let expected = [
        hex("42831ec2217774244b7221b784d0d49c"),
        hex("e3aa212f2c02a4e035c17e2329aca12e"),
        hex("21d514b25466931c7d8f6a5aac84aa05"),
        hex("1ba30b396a0aac973d58e091473f5985"),
    ]
    .concat();
    assert_eq!(sealed[..64].to_vec(), expected);
}

#[test]
fn open_refuses_a_flipped_bit() {
    let keystream = Keystream::new([9u8; 16], [1, 2, 3, 4]);
    let nonce = [5u8; 8];
    let aad = [6u8; 13];
    let plaintext = b"attack at dawn".to_vec();
    let sealed = seal(&keystream, &nonce, &aad, &plaintext).unwrap();
    let (ciphertext, tag) = sealed.split_at(plaintext.len());

    let mut bad_tag = tag.to_vec();
    bad_tag[15] ^= 1;
    assert_eq!(
        open(&keystream, &nonce, &aad, &ciphertext.to_vec(), &bad_tag).unwrap_err(),
        MpcTlsError::AeadTagMismatch
    );

    let mut bad_ciphertext = ciphertext.to_vec();
    bad_ciphertext[0] ^= 0x80;
    assert_eq!(
        open(&keystream, &nonce, &aad, &bad_ciphertext, tag).unwrap_err(),
        MpcTlsError::AeadTagMismatch
    );

    let mut bad_aad = aad;
    bad_aad[12] ^= 1;
    assert_eq!(
        open(&keystream, &nonce, &bad_aad, &ciphertext.to_vec(), tag).unwrap_err(),
        MpcTlsError::AeadTagMismatch
    );

    assert_eq!(
        open(&keystream, &nonce, &aad, &ciphertext.to_vec(), &tag[..15]).unwrap_err(),
        MpcTlsError::AeadTagMismatch
    );
}
