use tls_mpc::cipher::{Keystream, START_COUNTER};
use tls_mpc::decode::{xor_vec, Decode};
use tls_mpc::error::{DecodeError, MpcTlsError, TlsRole, VmError};
use tls_mpc::msgs::{
    explicit_nonce, make_aad, ContentType, OpaqueMessage, PlainMessage, ProtocolVersion,
};
use tls_mpc::record_layer::aead::{transmute, AesGcmDecrypt, AesGcmEncrypt};
use tls_mpc::record_layer::gcm::{ghash_for, open, seal};
use tls_mpc::record_layer::ghash::{GhashCompute, Tag};
use tls_mpc::vm::{Array, Vector, Vm};

fn keystream() -> Keystream {
    Keystream::new([0x3c; 16], [1, 2, 3, 4])
}

fn opaque(payload: Vec<u8>) -> OpaqueMessage {
    OpaqueMessage { typ: ContentType::ApplicationData, version: ProtocolVersion::TLSv1_2, payload }
}

fn plain(payload: Vec<u8>) -> PlainMessage {
    PlainMessage { typ: ContentType::ApplicationData, version: ProtocolVersion::TLSv1_2, payload }
}

#[test]
fn machine_regions_take_one_value_of_their_length() {
    let mut vm = Vm::new();
    assert_eq!(vm.len(), 0);
    let r = vm.alloc_vec(3);
    assert_eq!(r, Vector { ptr: 0, len: 3 });
    assert!(vm.has_len(r));
    assert!(!vm.has_len(Vector { ptr: 0, len: 4 }));
    assert!(!vm.has_len(Vector { ptr: 1, len: 3 }));
    assert_eq!(vm.decode(r).unwrap_err(), DecodeError::Unassigned);
    assert_eq!(vm.decode(Vector { ptr: 5, len: 3 }).unwrap_err(), DecodeError::UnknownReference);
    assert_eq!(vm.assign(r, vec![1, 2]).unwrap_err(), VmError::LengthMismatch);
    assert_eq!(
        vm.assign(Vector { ptr: 1, len: 3 }, vec![1, 2, 3]).unwrap_err(),
        VmError::UnknownReference
    );
    vm.assign(r, vec![1, 2, 3]).unwrap();
    assert_eq!(vm.assign(r, vec![4, 5, 6]).unwrap_err(), VmError::AlreadyAssigned);
    assert!(!vm.is_public(r));
    // What has been revealed is public.
    assert_eq!(vm.decode(r).unwrap(), vec![1, 2, 3]);
    assert!(vm.is_public(r));
    let declared = vm.alloc_vec(1);
    assert!(!vm.is_public(declared));
    vm.mark_public(declared).unwrap();
    assert!(vm.is_public(declared));
    assert!(!vm.is_public(Vector { ptr: 1, len: 2 }));
    assert_eq!(vm.mark_public(Vector { ptr: 9, len: 3 }).unwrap_err(), VmError::UnknownReference);
    assert_eq!(vm.len(), 2);
}

#[test]
fn one_time_pad_reveals_the_value_whatever_the_pad() {
    let mut vm = Vm::new();
    let r = vm.alloc_vec(4);
    vm.assign(r, vec![10, 20, 30, 40]).unwrap();

    for pad in [vec![0u8; 4], vec![0xff; 4], vec![1, 2, 3, 4]] {
        let pending = Decode::with_pad(&vm, TlsRole::Leader, r, pad).unwrap();
        let shared = pending.shared(&mut vm).unwrap();
        assert_eq!(shared.decode().unwrap(), vec![10, 20, 30, 40]);
    }
    let private = Decode::new(&vm, TlsRole::Leader, r).unwrap().private(&mut vm).unwrap();
    assert_eq!(private.decode().unwrap(), Some(vec![10, 20, 30, 40]));
    let private = Decode::new(&vm, TlsRole::Follower, r).unwrap().private(&mut vm).unwrap();
    assert_eq!(private.decode().unwrap(), None);
    // Each reveal left its masked value in the machine, marked public.
    assert_eq!(vm.len(), 6);
    let masked = vm.decode(Vector { ptr: 3, len: 4 }).unwrap();
    assert_eq!(xor_vec(&masked, &vec![1, 2, 3, 4]), vec![10, 20, 30, 40]);
}

#[test]
fn one_time_pad_refuses_what_the_machine_does_not_hold() {
    let mut vm = Vm::new();
    assert_eq!(
        Decode::new(&vm, TlsRole::Leader, Vector { ptr: 0, len: 1 }).unwrap_err(),
        MpcTlsError::Vm { cause: VmError::UnknownReference }
    );
    let r = vm.alloc_vec(2);
    let pending = Decode::new(&vm, TlsRole::Leader, r).unwrap();
    assert_eq!(
        pending.private(&mut vm).unwrap_err(),
        MpcTlsError::Decode { cause: DecodeError::Unassigned }
    );
    assert_eq!(vm.len(), 1);
}

#[test]
fn keystream_in_the_machine_is_the_keystream_outside_it() {
    let keystream = keystream();
    let nonce = explicit_nonce(5);
    assert_eq!(nonce, [0, 0, 0, 0, 0, 0, 0, 5]);
    let mut vm = Vm::new();
    let j0 = keystream.j0(&mut vm, nonce).unwrap();
    assert_eq!(j0, Array { ptr: 0 });
    assert_eq!(transmute(j0), Vector { ptr: 0, len: 16 });
    assert_eq!(vm.decode(transmute(j0)).unwrap(), keystream.j0_value(&nonce).to_vec());

    let message = b"seventeen bytes!!".to_vec();
    let input = vm.alloc_vec(message.len());
    let chunk = keystream.chunk_sufficient(message.len()).unwrap();
    let output = chunk.apply(&mut vm, input).unwrap();
    let out = output.assign(&mut vm, nonce, START_COUNTER, message.clone()).unwrap();
    assert_eq!(out, Vector { ptr: 2, len: 17 });
    let ciphertext = vm.decode(out).unwrap();
    assert_eq!(ciphertext, keystream.transform(&nonce, START_COUNTER, &message));
    assert_ne!(ciphertext, message);
    assert_eq!(keystream.transform(&nonce, START_COUNTER, &ciphertext), message);
    assert_eq!(vm.decode(input).unwrap(), message);

    // The same wiring does not take a second message.
    assert_eq!(
        output.assign(&mut vm, nonce, START_COUNTER, message.clone()).unwrap_err(),
        VmError::AlreadyAssigned
    );
    assert_eq!(
        chunk.apply(&mut vm, Vector { ptr: 40, len: 1 }).unwrap_err(),
        VmError::UnknownReference
    );
    let input = vm.alloc_vec(4);
    let output = chunk.apply(&mut vm, input).unwrap();
    assert_eq!(
        output.assign(&mut vm, nonce, START_COUNTER, vec![1, 2, 3]).unwrap_err(),
        VmError::LengthMismatch
    );
    assert_eq!(
        output.assign(&mut vm, nonce, u32::MAX, vec![0; 4]).unwrap(),
        Vector { ptr: 4, len: 4 }
    );
    let input = vm.alloc_vec(17);
    let output = chunk.apply(&mut vm, input).unwrap();
    assert_eq!(
        output.assign(&mut vm, nonce, u32::MAX, vec![0; 17]).unwrap_err(),
        VmError::CounterExhausted
    );
}

#[test]
fn prepared_encryption_computes_to_the_sealed_record() {
    let keystream = keystream();
    let nonce = explicit_nonce(1);
    let aad = make_aad(1, ContentType::ApplicationData, ProtocolVersion::TLSv1_2, 11);
    assert_eq!(aad, [0, 0, 0, 0, 0, 0, 0, 1, 23, 3, 3, 0, 11]);
    let plaintext = b"hello world".to_vec();

    for role in [TlsRole::Leader, TlsRole::Follower] {
        let mut vm = Vm::new();
        let plaintext_ref = vm.alloc_vec(plaintext.len());
        let mut encrypter = AesGcmEncrypt::new(role, keystream, ghash_for(&keystream));
        let prepared = encrypter
            .encrypt(&mut vm, plaintext_ref, nonce, plaintext.clone(), aad)
            .unwrap();
        assert_eq!(vm.len(), 4);
        // Revealed are the masked mask and the ciphertext, and nothing else.
        assert!(!vm.is_public(plaintext_ref));
        assert!(!vm.is_public(Vector { ptr: 1, len: 16 }));
        assert!(vm.is_public(Vector { ptr: 2, len: 16 }));
        assert!(vm.is_public(Vector { ptr: 3, len: plaintext.len() }));
        let record = prepared.map_cipher(opaque).compute().unwrap();
        assert_eq!(record.payload, seal(&keystream, &nonce, &aad, &plaintext).unwrap());
        assert_eq!(record.typ, ContentType::ApplicationData);
    }
}

#[test]
fn several_records_can_be_prepared_before_any_is_computed() {
    let keystream = keystream();
    let mut vm = Vm::new();
    let mut encrypter = AesGcmEncrypt::new(TlsRole::Leader, keystream, ghash_for(&keystream));
    let mut prepared = Vec::new();
    for seq in 0..3u64 {
        let plaintext = vec![seq as u8; 5];
        let plaintext_ref = vm.alloc_vec(5);
        let aad = make_aad(seq, ContentType::ApplicationData, ProtocolVersion::TLSv1_2, 5);
        prepared.push(
            encrypter.encrypt(&mut vm, plaintext_ref, explicit_nonce(seq), plaintext, aad).unwrap(),
        );
    }
    for (seq, prepared) in prepared.into_iter().enumerate() {
        let seq = seq as u64;
        let aad = make_aad(seq, ContentType::ApplicationData, ProtocolVersion::TLSv1_2, 5);
        let record = prepared.map_cipher(opaque).compute().unwrap();
        assert_eq!(
            record.payload,
            seal(&keystream, &explicit_nonce(seq), &aad, &vec![seq as u8; 5]).unwrap()
        );
    }
}

#[test]
fn encryption_refuses_a_region_that_does_not_take_the_plaintext() {
    let keystream = keystream();
    let mut encrypter = AesGcmEncrypt::new(TlsRole::Leader, keystream, ghash_for(&keystream));
    let mut vm = Vm::new();
    let region = vm.alloc_vec(3);
    let aad = [0u8; 13];
    assert_eq!(
        encrypter.encrypt(&mut vm, region, [0; 8], vec![1, 2], aad).unwrap_err(),
        MpcTlsError::Vm { cause: VmError::LengthMismatch }
    );
    assert_eq!(
        encrypter
            .encrypt(&mut vm, Vector { ptr: 77, len: 2 }, [0; 8], vec![1, 2], aad)
            .unwrap_err(),
        MpcTlsError::Vm { cause: VmError::UnknownReference }
    );
    encrypter.encrypt(&mut vm, region, [0; 8], vec![1, 2, 3], aad).unwrap();
    assert_eq!(
        encrypter.encrypt(&mut vm, region, [0; 8], vec![1, 2, 3], aad).unwrap_err(),
        MpcTlsError::Vm { cause: VmError::AlreadyAssigned }
    );
}

#[test]
fn prepared_decryption_releases_the_plaintext_to_the_leader_alone() {
    let keystream = keystream();
    let nonce = [9u8; 8];
    let aad = make_aad(0, ContentType::ApplicationData, ProtocolVersion::TLSv1_2, 6);
    let sealed = seal(&keystream, &nonce, &aad, &b"secret".to_vec()).unwrap();
    let (ciphertext, tag) = sealed.split_at(6);

    for (role, expected) in
        [(TlsRole::Leader, Some(b"secret".to_vec())), (TlsRole::Follower, None)]
    {
        let mut vm = Vm::new();
        let mut decrypter = AesGcmDecrypt::new(role, keystream, ghash_for(&keystream));
        let (prepared, plaintext_ref) = decrypter
            .decrypt(&mut vm, nonce, ciphertext.to_vec(), aad, tag.to_vec())
            .unwrap();
        assert_eq!(plaintext_ref, Vector { ptr: 3, len: 6 });
        assert_eq!(vm.len(), 4);
        assert!(vm.is_public(Vector { ptr: 2, len: 6 }));
        let released = prepared
            .private(&mut vm)
            .unwrap()
            .map_plain(|bytes| bytes.map(plain))
            .compute()
            .unwrap();
        assert_eq!(released.map(|message| message.payload), expected);
        // Only the masked plaintext went public.
        assert!(!vm.is_public(plaintext_ref));
        assert!(vm.is_public(Vector { ptr: 4, len: 6 }));
    }
}

#[test]
fn public_decryption_releases_the_plaintext_to_both() {
    let keystream = keystream();
    let nonce = [9u8; 8];
    let aad = [4u8; 13];
    let sealed = seal(&keystream, &nonce, &aad, &b"public".to_vec()).unwrap();
    let (ciphertext, tag) = sealed.split_at(6);
    for role in [TlsRole::Leader, TlsRole::Follower] {
        let mut vm = Vm::new();
        let mut decrypter = AesGcmDecrypt::new(role, keystream, ghash_for(&keystream));
        let (prepared, plaintext_ref) = decrypter
            .decrypt(&mut vm, nonce, ciphertext.to_vec(), aad, tag.to_vec())
            .unwrap();
        assert!(!vm.is_public(plaintext_ref));
        let released = prepared.public(&mut vm).unwrap().map_plain(plain).compute().unwrap();
        assert_eq!(released.payload, b"public");
        assert!(vm.is_public(plaintext_ref));
    }
}

#[test]
fn plaintext_of_a_forged_record_is_not_released() {
    let keystream = keystream();
    let nonce = [9u8; 8];
    let aad = [4u8; 13];
    let sealed = seal(&keystream, &nonce, &aad, &b"forged".to_vec()).unwrap();
    let (ciphertext, tag) = sealed.split_at(6);
    let mut bad_tag = tag.to_vec();
    bad_tag[0] ^= 0x80;

    let mut vm = Vm::new();
    let mut decrypter = AesGcmDecrypt::new(TlsRole::Leader, keystream, ghash_for(&keystream));
    let (prepared, _) = decrypter
        .decrypt(&mut vm, nonce, ciphertext.to_vec(), aad, bad_tag.clone())
        .unwrap();
    assert_eq!(
        prepared
            .private(&mut vm)
            .unwrap()
            .map_plain(|bytes| bytes.map(plain))
            .compute()
            .unwrap_err(),
        MpcTlsError::AeadTagMismatch
    );
    let (prepared, _) = decrypter
        .decrypt(&mut vm, nonce, ciphertext.to_vec(), aad, bad_tag)
        .unwrap();
    assert_eq!(
        prepared.public(&mut vm).unwrap().map_plain(plain).compute().unwrap_err(),
        MpcTlsError::AeadTagMismatch
    );
    // Under another hash subkey the true tag is refused as well.
    let mut decrypter = AesGcmDecrypt::new(TlsRole::Leader, keystream, GhashCompute::new([1; 16]));
    let (prepared, _) = decrypter
        .decrypt(&mut vm, nonce, ciphertext.to_vec(), aad, tag.to_vec())
        .unwrap();
    assert_eq!(
        prepared.public(&mut vm).unwrap().map_plain(plain).compute().unwrap_err(),
        MpcTlsError::AeadTagMismatch
    );
}

#[test]
fn decryption_handle_needs_the_machine_it_was_prepared_in() {
    let keystream = keystream();
    let mut vm = Vm::new();
    let mut decrypter = AesGcmDecrypt::new(TlsRole::Leader, keystream, ghash_for(&keystream));
    let (prepared, _) =
        decrypter.decrypt(&mut vm, [0; 8], vec![1, 2, 3], [0; 13], vec![0; 16]).unwrap();
    let mut other = Vm::new();
    assert_eq!(
        prepared.private(&mut other).unwrap_err(),
        MpcTlsError::Vm { cause: VmError::UnknownReference }
    );
    let (prepared, _) =
        decrypter.decrypt(&mut vm, [0; 8], vec![1, 2, 3], [0; 13], vec![0; 16]).unwrap();
    assert_eq!(
        prepared.public(&mut other).unwrap_err(),
        MpcTlsError::Decode { cause: DecodeError::UnknownReference }
    );
}

#[test]
fn tag_is_computed_and_verified() {
    let keystream = keystream();
    let ghash = ghash_for(&keystream);
    let nonce = [2u8; 8];
    let aad = [5u8; 13];
    let sealed = seal(&keystream, &nonce, &aad, &b"tagged".to_vec()).unwrap();
    let j0 = keystream.j0_value(&nonce).to_vec();
    let tag = Tag::compute(&ghash, j0.clone(), &sealed[..6].to_vec(), aad.to_vec()).unwrap();
    assert_eq!(tag.into_inner(), sealed[6..].to_vec());
    tag.verify(TlsRole::Follower, sealed[6..].to_vec()).unwrap();
    assert_eq!(
        tag.verify(TlsRole::Leader, vec![0; 16]).unwrap_err(),
        MpcTlsError::AeadTagMismatch
    );
    assert_eq!(
        tag.verify(TlsRole::Leader, sealed[6..21].to_vec()).unwrap_err(),
        MpcTlsError::AeadTagMismatch
    );
    assert_eq!(
        Tag::compute(&ghash, j0[..15].to_vec(), &vec![], vec![]).unwrap_err(),
        MpcTlsError::Internal
    );
    assert!(open(&keystream, &nonce, &aad, &sealed[..6].to_vec(), &sealed[6..]).is_ok());
}
