use tls_mpc::bytes::{array16, array4, array8, bytes_eq, join, copy_range};
use tls_mpc::prf::{client_finished, key_block, master_secret, prf, server_finished};

fn hex(text: &str) -> Vec<u8> {
    let digits: Vec<u8> = text
        .bytes()
        .filter(|c| !c.is_ascii_whitespace())
        .map(|c| match c {
            b'0'..=b'9' => c - b'0',
            b'a'..=b'f' => c - b'a' + 10,
            _ => panic!("not a hex digit"),
        })
        .collect();
    digits.chunks(2).map(|pair| pair[0] * 16 + pair[1]).collect()
}

#[test]
fn prf_matches_the_published_vector() {
    let secret = hex("9bbe436ba940f017b17652849a71db35");
    let seed = hex("a0ba9f936cda311827a6f796ffd5198c");
    let out = prf(&secret, b"test label", &seed, 100);
    let expected = hex(
        "e3f229ba727be17b8d122620557cd453
         c2aab21d07c3d495329b52d4e61edb5a
         6b301791e90d35c9c9a46b4e14baf9af
         0fa022f7077def17abfd3797c0564bab
         4fbc91666e9def9b97fce34f796789ba
         a48082d122ee42c5a72e5a5110fff701
         87347b66",
    );
    assert_eq!(out, expected);
}

#[test]
fn shorter_output_is_a_prefix_of_longer() {
    let long = prf(b"secret", b"label", b"seed", 77);
    assert_eq!(long.len(), 77);
    for len in [0usize, 1, 12, 31, 32, 33, 64, 76] {
        assert_eq!(prf(b"secret", b"label", b"seed", len), long[..len].to_vec());
    }
    // Label and seed enter as one string.
    assert_eq!(prf(b"secret", b"label", b"seed", 32), prf(b"secret", b"labels", b"eed", 32));
    assert_ne!(prf(b"secret", b"label", b"seed", 32), prf(b"secrets", b"label", b"seed", 32));
    assert_ne!(prf(b"secret", b"label", b"seed", 32), prf(b"secret", b"label", b"seeds", 32));
}

#[test]
fn handshake_secrets_use_their_labels() {
    let pms = [0x42u8; 32];
    let ms = master_secret(&pms, &[1; 32]);
    assert_eq!(ms.len(), 48);
    assert_eq!(ms, prf(&pms, b"extended master secret", &[1; 32], 48));
    let block = key_block(&ms, &[2; 32], &[3; 32]);
    assert_eq!(block.len(), 40);
    assert_eq!(block, prf(&ms, b"key expansion", &join(&[2; 32], &[3; 32]), 40));
    assert_eq!(client_finished(&ms, &[4; 32]), prf(&ms, b"client finished", &[4; 32], 12));
    assert_eq!(server_finished(&ms, &[4; 32]), prf(&ms, b"server finished", &[4; 32], 12));
}

#[test]
fn byte_helpers() {
    assert_eq!(join(&[1, 2], &[3]), vec![1, 2, 3]);
    assert_eq!(join(&[], &[]), Vec::<u8>::new());
    let data: Vec<u8> = (0..40).collect();
    assert_eq!(copy_range(&data, 3, 6), vec![3, 4, 5]);
    assert_eq!(copy_range(&data, 7, 7), Vec::<u8>::new());
    assert_eq!(array4(&data, 36), [36, 37, 38, 39]);
    assert_eq!(array8(&data, 1), [1, 2, 3, 4, 5, 6, 7, 8]);
    assert_eq!(array16(&data, 16).to_vec(), data[16..32].to_vec());
    assert!(bytes_eq(&[1, 2], &[1, 2]));
    assert!(!bytes_eq(&[1, 2], &[1, 3]));
    assert!(!bytes_eq(&[1, 2], &[1, 2, 3]));
    assert!(bytes_eq(&[], &[]));
}
