use aes_gcm::aead::{Aead, NewAead, Payload};
use aes_gcm::{Aes128Gcm, Key, Nonce};
use tls_mpc::error::{MpcTlsError, Phase};
use tls_mpc::leader::state::Step;
use tls_mpc::leader::{
    KeyMaterial, MpcTlsCommonConfig, MpcTlsLeader, MpcTlsLeaderConfig, ServerPublicKeyPolicy,
};
use tls_mpc::msgs::{
    ContentType, DecryptMode, EncryptMode, NamedGroup, OpaqueMessage, PlainMessage,
    ProtocolVersion, PublicKey, Random, ServerCertDetails, ServerKxDetails, SupportedCipherSuite,
};
use tls_mpc::prf;

const REQUEST: &str =
    "POST /echo HTTP/1.1\r\nHost: test-server.io\r\nContent-Length: 5\r\n\r\nhello\r\n";

fn config(max_sent: u32, max_recv: u32, defer: bool) -> MpcTlsLeaderConfig {
    MpcTlsLeaderConfig {
        common: MpcTlsCommonConfig {
            max_sent_bytes: max_sent,
            max_recv_bytes: max_recv,
            server_public_key_policy: ServerPublicKeyPolicy::Any,
        },
        defer_decryption_from_start: defer,
    }
}

fn material() -> KeyMaterial {
    KeyMaterial {
        client_random: [0x11; 32],
        client_key_share: vec![4u8; 65],
        pre_master_secret: vec![0x42; 32],
    }
}

fn cert() -> ServerCertDetails {
    ServerCertDetails {
        cert_chain: vec![vec![1, 2, 3]],
        ocsp_response: vec![],
        scts: vec![],
        spki: vec![9, 9, 9],
    }
}

/// The secrets of a session with the key material above, a server random of
/// 0x22 and the handshake hash `[1; 32]`.
struct Keys {
    master_secret: Vec<u8>,
    client_key: [u8; 16],
    server_key: [u8; 16],
    client_iv: [u8; 4],
    server_iv: [u8; 4],
}

fn keys() -> Keys {
    let master_secret = prf::master_secret(&[0x42; 32], &[1; 32]);
    let block = prf::key_block(&master_secret, &[0x22; 32], &[0x11; 32]);
    let mut keys = Keys {
        master_secret,
        client_key: [0; 16],
        server_key: [0; 16],
        client_iv: [0; 4],
        server_iv: [0; 4],
    };
    keys.client_key.copy_from_slice(&block[0..16]);
    keys.server_key.copy_from_slice(&block[16..32]);
    keys.client_iv.copy_from_slice(&block[32..36]);
    keys.server_iv.copy_from_slice(&block[36..40]);
    keys
}

/// Runs the handshake up to, and not including, `prepare_encryption`.
fn shake_hands(leader: &mut MpcTlsLeader) {
    leader.setup().unwrap();
    leader.set_protocol_version(ProtocolVersion::TLSv1_2).unwrap();
    leader
        .set_cipher_suite(SupportedCipherSuite::EcdheRsaWithAes128GcmSha256)
        .unwrap();
    assert_eq!(leader.get_client_random().unwrap().0, [0x11; 32]);
    let share = leader.get_client_key_share().unwrap();
    assert_eq!(share.group, NamedGroup::Secp256r1);
    assert_eq!(share.key, vec![4u8; 65]);
    leader.set_server_random(Random([0x22; 32])).unwrap();
    leader
        .set_server_key_share(PublicKey { group: NamedGroup::Secp256r1, key: vec![4u8; 65] })
        .unwrap();
    leader.set_server_cert_details(cert()).unwrap();
    leader
        .set_server_kx_details(ServerKxDetails { kx_params: vec![], kx_sig: vec![] })
        .unwrap();
    leader.set_hs_hash_client_key_exchange(vec![1; 32]).unwrap();
    leader.get_client_finished_vd(vec![2; 32]).unwrap();
    leader.set_hs_hash_server_hello(vec![3; 32]).unwrap();
    leader.get_server_finished_vd(vec![3; 32]).unwrap();
}

fn active(max_sent: u32, max_recv: u32) -> MpcTlsLeader {
    let mut leader = MpcTlsLeader::new(config(max_sent, max_recv, false), material());
    shake_hands(&mut leader);
    leader.prepare_encryption().unwrap();
    assert_eq!(leader.step(), Step::Active);
    leader
}

fn aad(seq: u64, typ: u8, len: usize) -> Vec<u8> {
    let mut aad = seq.to_be_bytes().to_vec();
    aad.extend([typ, 3, 3, (len >> 8) as u8, len as u8]);
    aad
}

/// A record as the server would protect it, computed by an implementation
/// that is not this library's.
fn from_server(keys: &Keys, seq: u64, explicit_nonce: [u8; 8], plaintext: &[u8]) -> OpaqueMessage {
    let cipher = Aes128Gcm::new(Key::from_slice(&keys.server_key));
    let mut nonce = keys.server_iv.to_vec();
    nonce.extend(explicit_nonce);
    let sealed = cipher
        .encrypt(
            Nonce::from_slice(&nonce),
            Payload { msg: plaintext, aad: &aad(seq, 23, plaintext.len()) },
        )
        .unwrap();
    let mut payload = explicit_nonce.to_vec();
    payload.extend(sealed);
    OpaqueMessage {
        typ: ContentType::ApplicationData,
        version: ProtocolVersion::TLSv1_2,
        payload,
    }
}

fn application_data(bytes: &[u8]) -> PlainMessage {
    PlainMessage {
        typ: ContentType::ApplicationData,
        version: ProtocolVersion::TLSv1_2,
        payload: bytes.to_vec(),
    }
}

#[test]
fn handshake_walks_through_the_phases() {
    let mut leader = MpcTlsLeader::new(config(100, 100, false), material());
    assert_eq!(leader.phase(), Phase::Init);
    leader.setup().unwrap();
    assert_eq!(leader.phase(), Phase::HandshakeSetup);
    leader.set_protocol_version(ProtocolVersion::TLSv1_2).unwrap();
    assert_eq!(leader.phase(), Phase::HandshakeSetup);
    leader
        .set_cipher_suite(SupportedCipherSuite::EcdheEcdsaWithAes128GcmSha256)
        .unwrap();
    assert_eq!(leader.phase(), Phase::KeyExchange);
    assert_eq!(
        leader.get_suite().unwrap(),
        SupportedCipherSuite::EcdheEcdsaWithAes128GcmSha256
    );
    leader.get_client_random().unwrap();
    leader.get_client_key_share().unwrap();
    leader.set_server_random(Random([0x22; 32])).unwrap();
    leader
        .set_server_key_share(PublicKey { group: NamedGroup::Secp256r1, key: vec![] })
        .unwrap();
    assert_eq!(leader.phase(), Phase::DeriveMasterSecret);
    leader.set_server_cert_details(cert()).unwrap();
    leader
        .set_server_kx_details(ServerKxDetails { kx_params: vec![], kx_sig: vec![] })
        .unwrap();
    leader.set_hs_hash_client_key_exchange(vec![1; 32]).unwrap();
    assert_eq!(leader.phase(), Phase::ClientFinished);
    leader.get_client_finished_vd(vec![2; 32]).unwrap();
    assert_eq!(leader.phase(), Phase::ServerFinished);
    leader.set_hs_hash_server_hello(vec![3; 32]).unwrap();
    leader.get_server_finished_vd(vec![3; 32]).unwrap();
    assert_eq!(leader.phase(), Phase::ServerFinished);
    leader.set_encrypt(EncryptMode::Application).unwrap();
    leader.set_decrypt(DecryptMode::Application).unwrap();
    leader.prepare_encryption().unwrap();
    assert_eq!(leader.phase(), Phase::Active);
}

#[test]
fn finished_verify_data_is_the_prf_of_the_master_secret() {
    let mut leader = MpcTlsLeader::new(config(100, 100, false), material());
    leader.setup().unwrap();
    leader.set_protocol_version(ProtocolVersion::TLSv1_2).unwrap();
    leader
        .set_cipher_suite(SupportedCipherSuite::EcdheRsaWithAes128GcmSha256)
        .unwrap();
    leader.get_client_random().unwrap();
    leader.get_client_key_share().unwrap();
    leader.set_server_random(Random([0x22; 32])).unwrap();
    leader
        .set_server_key_share(PublicKey { group: NamedGroup::Secp256r1, key: vec![] })
        .unwrap();
    leader.set_server_cert_details(cert()).unwrap();
    leader
        .set_server_kx_details(ServerKxDetails { kx_params: vec![], kx_sig: vec![] })
        .unwrap();
    leader.set_hs_hash_client_key_exchange(vec![1; 32]).unwrap();
    let keys = keys();
    let client = leader.get_client_finished_vd(vec![2; 32]).unwrap();
    assert_eq!(client.len(), 12);
    assert_eq!(client, prf::prf(&keys.master_secret, b"client finished", &[2; 32], 12));
    leader.set_hs_hash_server_hello(vec![3; 32]).unwrap();
    let server = leader.get_server_finished_vd(vec![5; 32]).unwrap();
    assert_eq!(server.len(), 12);
    assert_eq!(server, prf::prf(&keys.master_secret, b"server finished", &[5; 32], 12));
    assert_ne!(server, client);
}

#[test]
fn happy_path_request_and_echo() {
    let mut leader = active(1 << 12, 1 << 12);
    let keys = keys();

    let sent = leader.encrypt(application_data(REQUEST.as_bytes()), 0).unwrap();
    assert_eq!(sent.typ, ContentType::ApplicationData);
    assert_eq!(sent.payload.len(), REQUEST.len() + 24);
    assert_eq!(sent.payload[..8], [0u8; 8]);
    // What an implementation that is not this library's makes of the record.
    let cipher = Aes128Gcm::new(Key::from_slice(&keys.client_key));
    let mut nonce = keys.client_iv.to_vec();
    nonce.extend([0u8; 8]);
    let reference = cipher
        .encrypt(
            Nonce::from_slice(&nonce),
            Payload { msg: REQUEST.as_bytes(), aad: &aad(0, 23, REQUEST.len()) },
        )
        .unwrap();
    assert_eq!(sent.payload[8..].to_vec(), reference);

    let echo = b"HTTP/1.1 200 OK\r\nContent-Length: 8\r\n\r\nhello\r\n\r\n\n";
    assert_eq!(echo.len(), 48);
    leader.buffer_incoming(from_server(&keys, 0, [7; 8], echo)).unwrap();
    assert_eq!(leader.buffer_len().unwrap(), 1);
    assert!(leader.get_notify().unwrap().ready);
    let record = leader.next_incoming().unwrap().unwrap();
    assert_eq!(leader.buffer_len().unwrap(), 0);
    assert!(!leader.get_notify().unwrap().ready);
    let plain = leader.decrypt(record, 0).unwrap();
    assert_eq!(plain.payload.len(), 48);
    assert!(plain.payload.windows(5).any(|window| window == b"hello"));
    assert_eq!(leader.seq_out(), 1);
    assert_eq!(leader.seq_in(), 1);

    leader.close_connection().unwrap();
    assert_eq!(leader.phase(), Phase::Closed);
    let data = leader.stopped().unwrap();
    assert_eq!(data.sent.len(), 1);
    assert_eq!(data.sent[0].payload, REQUEST.as_bytes());
    assert_eq!(data.received.len(), 1);
    assert_eq!(data.received[0].payload, echo);
    assert!(!data.server_closed);
}

#[test]
fn deferred_decryption_then_commit() {
    let mut leader = active(1 << 12, 1 << 12);
    let keys = keys();

    leader.encrypt(application_data(REQUEST.as_bytes()), 0).unwrap();
    let first = from_server(&keys, 0, [0; 8], b"first response");
    leader.buffer_incoming(first).unwrap();
    let record = leader.next_incoming().unwrap().unwrap();
    assert_eq!(leader.decrypt(record, 0).unwrap().payload, b"first response");

    leader.defer_decryption().unwrap();
    assert_eq!(leader.phase(), Phase::DeferredDecrypt);
    leader.encrypt(application_data(REQUEST.as_bytes()), 1).unwrap();
    leader.buffer_incoming(from_server(&keys, 1, [1; 8], b"second")).unwrap();
    leader.buffer_incoming(from_server(&keys, 2, [2; 8], b"third")).unwrap();
    assert_eq!(leader.buffer_len().unwrap(), 2);
    // Held back while decryption is deferred.
    assert!(leader.next_incoming().unwrap().is_none());
    assert!(!leader.get_notify().unwrap().ready);
    assert_eq!(
        leader.decrypt(from_server(&keys, 1, [1; 8], b"second"), 1).unwrap_err(),
        MpcTlsError::InvalidState { expected: Phase::Active, actual: Phase::DeferredDecrypt }
    );
    // The server's end of stream does not close a session that waits for
    // its commit.
    leader.server_closed().unwrap();
    assert_eq!(leader.phase(), Phase::DeferredDecrypt);

    leader.commit().unwrap();
    assert_eq!(leader.phase(), Phase::Committed);
    assert_eq!(leader.buffer_len().unwrap(), 0);
    assert_eq!(leader.seq_in(), 3);

    leader.close_connection().unwrap();
    let data = leader.stopped().unwrap();
    let received: Vec<&[u8]> = data.received.iter().map(|m| m.payload.as_slice()).collect();
    assert_eq!(received, vec![&b"first response"[..], &b"second"[..], &b"third"[..]]);
    assert!(data.server_closed);
}

#[test]
fn tampered_tag_ends_the_session() {
    let mut leader = active(1 << 12, 1 << 12);
    let keys = keys();
    let mut record = from_server(&keys, 0, [0; 8], b"secret");
    let last = record.payload.len() - 1;
    record.payload[last] ^= 1;
    leader.buffer_incoming(record).unwrap();
    let record = leader.next_incoming().unwrap().unwrap();
    assert_eq!(leader.decrypt(record, 0).unwrap_err(), MpcTlsError::AeadTagMismatch);
    assert_eq!(leader.phase(), Phase::Failed);
    assert_eq!(leader.seq_in(), 0);
    assert_eq!(
        leader.encrypt(application_data(b"x"), 0).unwrap_err(),
        MpcTlsError::InvalidState { expected: Phase::Active, actual: Phase::Failed }
    );
    assert_eq!(
        leader.close_connection().unwrap_err(),
        MpcTlsError::InvalidState { expected: Phase::Active, actual: Phase::Failed }
    );
    assert_eq!(
        leader.buffer_len().unwrap_err(),
        MpcTlsError::InvalidState { expected: Phase::Active, actual: Phase::Failed }
    );
    assert_eq!(
        leader.stopped().unwrap_err(),
        MpcTlsError::InvalidState { expected: Phase::Closed, actual: Phase::Failed }
    );
}

#[test]
fn tampered_ciphertext_or_header_ends_the_session() {
    let keys = keys();
    for flip in [8usize, 12] {
        let mut leader = active(1 << 12, 1 << 12);
        let mut record = from_server(&keys, 0, [0; 8], b"secret");
        record.payload[flip] ^= 0x10;
        assert_eq!(leader.decrypt(record, 0).unwrap_err(), MpcTlsError::AeadTagMismatch);
        assert_eq!(leader.phase(), Phase::Failed);
    }
    let mut leader = active(1 << 12, 1 << 12);
    let mut record = from_server(&keys, 0, [0; 8], b"secret");
    record.typ = ContentType::Alert;
    assert_eq!(leader.decrypt(record, 0).unwrap_err(), MpcTlsError::AeadTagMismatch);

    let mut leader = active(1 << 12, 1 << 12);
    let record = OpaqueMessage {
        typ: ContentType::ApplicationData,
        version: ProtocolVersion::TLSv1_2,
        payload: vec![0; 23],
    };
    assert_eq!(leader.decrypt(record, 0).unwrap_err(), MpcTlsError::AeadTagMismatch);
}

#[test]
fn tampered_record_fails_the_commit() {
    let mut leader = active(1 << 12, 1 << 12);
    let keys = keys();
    leader.defer_decryption().unwrap();
    leader.buffer_incoming(from_server(&keys, 0, [0; 8], b"good")).unwrap();
    let mut bad = from_server(&keys, 1, [1; 8], b"bad");
    bad.payload[9] ^= 1;
    leader.buffer_incoming(bad).unwrap();
    assert_eq!(leader.commit().unwrap_err(), MpcTlsError::AeadTagMismatch);
    assert_eq!(leader.phase(), Phase::Failed);
    assert_eq!(leader.seq_in(), 0);
}

#[test]
fn encrypt_before_prepare_encryption_is_refused() {
    let mut leader = MpcTlsLeader::new(config(100, 100, false), material());
    shake_hands(&mut leader);
    assert_eq!(
        leader.encrypt(application_data(b"hello"), 0).unwrap_err(),
        MpcTlsError::InvalidState { expected: Phase::Active, actual: Phase::ServerFinished }
    );
    // Refused, and nothing has changed: the handshake goes on.
    assert_eq!(leader.step(), Step::PrepareEncryption);
    leader.prepare_encryption().unwrap();
    leader.encrypt(application_data(b"hello"), 0).unwrap();
}

#[test]
fn operations_out_of_order_are_refused_and_change_nothing() {
    let mut leader = MpcTlsLeader::new(config(100, 100, false), material());
    assert_eq!(
        leader.set_protocol_version(ProtocolVersion::TLSv1_2).unwrap_err(),
        MpcTlsError::InvalidState { expected: Phase::HandshakeSetup, actual: Phase::Init }
    );
    assert_eq!(
        leader.get_suite().unwrap_err(),
        MpcTlsError::InvalidState { expected: Phase::KeyExchange, actual: Phase::Init }
    );
    leader.setup().unwrap();
    assert_eq!(
        leader.setup().unwrap_err(),
        MpcTlsError::InvalidState { expected: Phase::Init, actual: Phase::HandshakeSetup }
    );
    assert_eq!(
        leader
            .set_cipher_suite(SupportedCipherSuite::EcdheRsaWithAes128GcmSha256)
            .unwrap_err(),
        MpcTlsError::InvalidState {
            expected: Phase::HandshakeSetup,
            actual: Phase::HandshakeSetup
        }
    );
    assert_eq!(
        leader.get_server_finished_vd(vec![]).unwrap_err(),
        MpcTlsError::InvalidState {
            expected: Phase::ServerFinished,
            actual: Phase::HandshakeSetup
        }
    );
    assert_eq!(
        leader.commit().unwrap_err(),
        MpcTlsError::InvalidState { expected: Phase::Active, actual: Phase::HandshakeSetup }
    );
    assert_eq!(leader.step(), Step::SetProtocolVersion);
    leader.set_protocol_version(ProtocolVersion::TLSv1_2).unwrap();
}

#[test]
fn send_budget_is_enforced_on_the_record_that_overruns() {
    let mut leader = active(16, 100);
    leader.encrypt(application_data(&[1; 10]), 0).unwrap();
    assert_eq!(
        leader.encrypt(application_data(&[2; 10]), 1).unwrap_err(),
        MpcTlsError::Capacity
    );
    assert_eq!(leader.phase(), Phase::Failed);
    assert_eq!(leader.seq_out(), 1);

    // Exactly the budget is within it.
    let mut leader = active(16, 100);
    leader.encrypt(application_data(&[1; 10]), 0).unwrap();
    leader.encrypt(application_data(&[2; 6]), 1).unwrap();
    assert_eq!(
        leader.encrypt(application_data(&[3; 1]), 2).unwrap_err(),
        MpcTlsError::Capacity
    );
}

#[test]
fn receive_budget_is_enforced_on_buffering_and_decrypting() {
    let keys = keys();
    let mut leader = active(100, 16);
    leader.buffer_incoming(from_server(&keys, 0, [0; 8], &[1; 10])).unwrap();
    assert_eq!(
        leader.buffer_incoming(from_server(&keys, 1, [1; 8], &[2; 10])).unwrap_err(),
        MpcTlsError::Capacity
    );
    assert_eq!(leader.phase(), Phase::Failed);

    let mut leader = active(100, 16);
    leader.decrypt(from_server(&keys, 0, [0; 8], &[1; 10]), 0).unwrap();
    assert_eq!(
        leader.decrypt(from_server(&keys, 1, [1; 8], &[2; 10]), 1).unwrap_err(),
        MpcTlsError::Capacity
    );
    assert_eq!(leader.seq_in(), 1);
}

#[test]
fn gaps_and_duplicates_in_record_numbers_are_refused() {
    let keys = keys();
    let mut leader = active(100, 100);
    assert_eq!(
        leader.encrypt(application_data(b"gap"), 1).unwrap_err(),
        MpcTlsError::Internal
    );
    assert_eq!(leader.phase(), Phase::Failed);

    let mut leader = active(100, 100);
    leader.encrypt(application_data(b"one"), 0).unwrap();
    assert_eq!(leader.seq_out(), 1);
    assert_eq!(
        leader.encrypt(application_data(b"again"), 0).unwrap_err(),
        MpcTlsError::Internal
    );

    let mut leader = active(100, 100);
    leader.decrypt(from_server(&keys, 0, [0; 8], b"one"), 0).unwrap();
    assert_eq!(leader.seq_in(), 1);
    assert_eq!(
        leader.decrypt(from_server(&keys, 0, [0; 8], b"one"), 0).unwrap_err(),
        MpcTlsError::Internal
    );

    // A record protected under another number than the one it is taken in
    // under is not authentic.
    let mut leader = active(100, 100);
    assert_eq!(
        leader.decrypt(from_server(&keys, 1, [0; 8], b"one"), 0).unwrap_err(),
        MpcTlsError::AeadTagMismatch
    );
}

#[test]
fn nothing_flows_after_commit_but_the_connection_closes() {
    let keys = keys();
    let mut leader = active(100, 100);
    leader.commit().unwrap();
    let refused = MpcTlsError::InvalidState { expected: Phase::Active, actual: Phase::Committed };
    assert_eq!(leader.encrypt(application_data(b"late"), 0).unwrap_err(), refused);
    assert_eq!(
        leader.buffer_incoming(from_server(&keys, 0, [0; 8], b"late")).unwrap_err(),
        refused
    );
    assert_eq!(leader.decrypt(from_server(&keys, 0, [0; 8], b"late"), 0).unwrap_err(), refused);
    assert_eq!(leader.next_incoming().unwrap_err(), refused);
    assert_eq!(leader.defer_decryption().unwrap_err(), refused);
    assert_eq!(leader.commit().unwrap_err(), refused);
    assert_eq!(leader.phase(), Phase::Committed);
    leader.close_connection().unwrap();
    assert_eq!(leader.phase(), Phase::Closed);
}

#[test]
fn server_closing_closes_an_active_session() {
    let mut leader = active(100, 100);
    leader.server_closed().unwrap();
    assert_eq!(leader.phase(), Phase::Closed);
    assert!(leader.stopped().unwrap().server_closed);
}

#[test]
fn unsupported_version_or_suite_is_invalid_config() {
    let mut leader = MpcTlsLeader::new(config(100, 100, false), material());
    leader.setup().unwrap();
    assert_eq!(
        leader.set_protocol_version(ProtocolVersion::TLSv1_3).unwrap_err(),
        MpcTlsError::InvalidConfig
    );
    assert_eq!(leader.phase(), Phase::Failed);

    let mut leader = MpcTlsLeader::new(config(100, 100, false), material());
    leader.setup().unwrap();
    leader.set_protocol_version(ProtocolVersion::TLSv1_2).unwrap();
    assert_eq!(
        leader
            .set_cipher_suite(SupportedCipherSuite::EcdheRsaWithAes256GcmSha384)
            .unwrap_err(),
        MpcTlsError::InvalidConfig
    );
    assert_eq!(leader.phase(), Phase::Failed);
}

#[test]
fn pinned_server_key_is_checked() {
    for (pinned, accepted) in [(vec![9, 9, 9], true), (vec![9, 9, 8], false), (vec![], false)] {
        let mut config = config(100, 100, false);
        config.common.server_public_key_policy = ServerPublicKeyPolicy::Pinned(pinned);
        let mut leader = MpcTlsLeader::new(config, material());
        leader.setup().unwrap();
        leader.set_protocol_version(ProtocolVersion::TLSv1_2).unwrap();
        leader
            .set_cipher_suite(SupportedCipherSuite::EcdheRsaWithAes128GcmSha256)
            .unwrap();
        leader.get_client_random().unwrap();
        leader.get_client_key_share().unwrap();
        leader.set_server_random(Random([0x22; 32])).unwrap();
        leader
            .set_server_key_share(PublicKey { group: NamedGroup::Secp256r1, key: vec![] })
            .unwrap();
        let outcome = leader.set_server_cert_details(cert());
        if accepted {
            outcome.unwrap();
            assert_eq!(leader.step(), Step::SetServerKxDetails);
        } else {
            assert_eq!(outcome.unwrap_err(), MpcTlsError::InvalidConfig);
            assert_eq!(leader.phase(), Phase::Failed);
        }
    }
}

#[test]
fn decryption_can_be_deferred_from_the_start() {
    let mut leader = MpcTlsLeader::new(config(100, 100, true), material());
    shake_hands(&mut leader);
    leader.prepare_encryption().unwrap();
    assert_eq!(leader.phase(), Phase::DeferredDecrypt);
    leader.encrypt(application_data(b"request"), 0).unwrap();
    leader.commit().unwrap();
    assert_eq!(leader.phase(), Phase::Committed);
}

#[test]
fn empty_record_round_trips() {
    let keys = keys();
    let mut leader = active(100, 100);
    let sent = leader.encrypt(application_data(b""), 0).unwrap();
    assert_eq!(sent.payload.len(), 24);
    let plain = leader.decrypt(from_server(&keys, 0, [3; 8], b""), 0).unwrap();
    assert!(plain.payload.is_empty());
}

#[test]
fn generated_key_material_has_a_fresh_client_random() {
    let first = KeyMaterial::generate(vec![4; 65], vec![7; 32]);
    let second = KeyMaterial::generate(vec![4; 65], vec![7; 32]);
    assert_eq!(first.client_key_share, vec![4; 65]);
    assert_eq!(first.pre_master_secret, vec![7; 32]);
    assert_ne!(first.client_random, second.client_random);
    let mut leader = MpcTlsLeader::new(config(10, 10, false), first.clone());
    leader.setup().unwrap();
    leader.set_protocol_version(ProtocolVersion::TLSv1_2).unwrap();
    leader
        .set_cipher_suite(SupportedCipherSuite::EcdheRsaWithAes128GcmSha256)
        .unwrap();
    assert_eq!(leader.get_client_random().unwrap().0, first.client_random);
}
