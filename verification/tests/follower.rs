use tls_mpc::error::{MpcTlsError, Phase};
use tls_mpc::follower::{
    DecryptMessage, EncryptMessage, MpcTlsFollower, MpcTlsFollowerConfig, MpcTlsMessage,
};
use tls_mpc::leader::state::Step;
use tls_mpc::leader::{
    KeyMaterial, MpcTlsCommonConfig, MpcTlsLeader, MpcTlsLeaderConfig, ServerPublicKeyPolicy,
};
use tls_mpc::msgs::{
    ContentType, DecryptMode, EncryptMode, NamedGroup, OpaqueMessage, PlainMessage,
    ProtocolVersion, PublicKey, Random, ServerCertDetails, ServerKxDetails, SupportedCipherSuite,
};

fn follower(max_sent: u32, max_recv: u32, policy: ServerPublicKeyPolicy) -> MpcTlsFollower {
    MpcTlsFollower::new(MpcTlsFollowerConfig {
        common: MpcTlsCommonConfig {
            max_sent_bytes: max_sent,
            max_recv_bytes: max_recv,
            server_public_key_policy: policy,
        },
    })
}

fn cert(spki: Vec<u8>) -> ServerCertDetails {
    ServerCertDetails { cert_chain: vec![], ocsp_response: vec![], scts: vec![], spki }
}

fn handshake() -> Vec<MpcTlsMessage> {
    vec![
        MpcTlsMessage::SetProtocolVersion(ProtocolVersion::TLSv1_2),
        MpcTlsMessage::SetCipherSuite(SupportedCipherSuite::EcdheRsaWithAes128GcmSha256),
        MpcTlsMessage::GetSuite,
        MpcTlsMessage::SetEncrypt(EncryptMode::Handshake),
        MpcTlsMessage::SetDecrypt(DecryptMode::Handshake),
        MpcTlsMessage::GetClientRandom(Random([1; 32])),
        MpcTlsMessage::GetClientKeyShare,
        MpcTlsMessage::SetServerRandom(Random([2; 32])),
        MpcTlsMessage::SetServerKeyShare(PublicKey { group: NamedGroup::Secp256r1, key: vec![] }),
        MpcTlsMessage::SetServerCertDetails(cert(vec![1, 2])),
        MpcTlsMessage::SetServerKxDetails(ServerKxDetails { kx_params: vec![], kx_sig: vec![] }),
        MpcTlsMessage::SetHsHashClientKeyExchange(vec![0; 32]),
        MpcTlsMessage::GetClientFinishedVd(vec![0; 32]),
        MpcTlsMessage::SetHsHashServerHello(vec![0; 32]),
        MpcTlsMessage::GetServerFinishedVd(vec![0; 32]),
    ]
}

fn active(max_sent: u32, max_recv: u32) -> MpcTlsFollower {
    let mut follower = follower(max_sent, max_recv, ServerPublicKeyPolicy::Any);
    follower.setup().unwrap();
    for command in handshake() {
        follower.handle(command).unwrap();
    }
    follower.handle(MpcTlsMessage::PrepareEncryption(false)).unwrap();
    assert_eq!(follower.step(), Step::Active);
    follower
}

fn record(len: usize) -> OpaqueMessage {
    OpaqueMessage {
        typ: ContentType::ApplicationData,
        version: ProtocolVersion::TLSv1_2,
        payload: vec![0; len],
    }
}

fn outgoing(len: usize, seq: u64) -> MpcTlsMessage {
    MpcTlsMessage::Encrypt(EncryptMessage {
        typ: ContentType::ApplicationData,
        version: ProtocolVersion::TLSv1_2,
        len,
        seq,
    })
}

fn incoming(len: usize, seq: u64, authentic: bool) -> MpcTlsMessage {
    MpcTlsMessage::Decrypt(DecryptMessage { msg: record(len), seq, authentic })
}

#[test]
fn follower_walks_through_the_session_with_the_leader() {
    let mut follower = active(100, 100);
    follower.handle(outgoing(10, 0)).unwrap();
    follower.handle(MpcTlsMessage::BufferIncoming(record(30))).unwrap();
    follower.handle(MpcTlsMessage::NextIncoming).unwrap();
    follower.handle(incoming(30, 0, true)).unwrap();
    assert_eq!(follower.seq_out(), 1);
    assert_eq!(follower.seq_in(), 1);
    follower.handle(MpcTlsMessage::DeferDecryption).unwrap();
    assert_eq!(follower.step(), Step::DeferredDecrypt);
    follower.handle(outgoing(10, 1)).unwrap();
    follower.handle(MpcTlsMessage::BufferIncoming(record(40))).unwrap();
    follower.handle(MpcTlsMessage::NextIncoming).unwrap();
    follower.handle(MpcTlsMessage::ServerClosed).unwrap();
    assert_eq!(follower.step(), Step::DeferredDecrypt);
    follower.handle(MpcTlsMessage::Commit).unwrap();
    assert_eq!(follower.step(), Step::Committed);
    // What the leader opens on its own does not move the follower's number.
    assert_eq!(follower.seq_in(), 1);
    assert_eq!(
        follower.handle(MpcTlsMessage::Finalize).unwrap_err(),
        MpcTlsError::InvalidState { expected: Phase::Closed, actual: Phase::Committed }
    );
    follower.handle(MpcTlsMessage::CloseConnection).unwrap();
    assert_eq!(follower.step(), Step::Closed);
    follower.handle(MpcTlsMessage::Finalize).unwrap();
}

#[test]
fn follower_refuses_commands_out_of_order_without_moving() {
    let mut follower = follower(100, 100, ServerPublicKeyPolicy::Any);
    assert_eq!(
        follower.handle(MpcTlsMessage::SetProtocolVersion(ProtocolVersion::TLSv1_2)).unwrap_err(),
        MpcTlsError::InvalidState { expected: Phase::HandshakeSetup, actual: Phase::Init }
    );
    follower.setup().unwrap();
    assert_eq!(
        follower.handle(outgoing(1, 0)).unwrap_err(),
        MpcTlsError::InvalidState { expected: Phase::Active, actual: Phase::HandshakeSetup }
    );
    assert_eq!(
        follower.handle(MpcTlsMessage::GetSuite).unwrap_err(),
        MpcTlsError::InvalidState { expected: Phase::KeyExchange, actual: Phase::HandshakeSetup }
    );
    assert_eq!(follower.step(), Step::SetProtocolVersion);
    follower.handle(MpcTlsMessage::SetProtocolVersion(ProtocolVersion::TLSv1_2)).unwrap();
}

#[test]
fn follower_enforces_budgets_and_numbers_itself() {
    let mut follower = active(16, 100);
    follower.handle(outgoing(10, 0)).unwrap();
    assert_eq!(follower.handle(outgoing(10, 1)).unwrap_err(), MpcTlsError::Capacity);
    assert_eq!(follower.step(), Step::Failed);
    assert_eq!(
        follower.handle(MpcTlsMessage::CloseConnection).unwrap_err(),
        MpcTlsError::InvalidState { expected: Phase::Active, actual: Phase::Failed }
    );

    let mut follower = active(100, 16);
    follower.handle(incoming(34, 0, true)).unwrap();
    assert_eq!(follower.handle(incoming(34, 1, true)).unwrap_err(), MpcTlsError::Capacity);

    let mut follower = active(100, 16);
    follower.handle(MpcTlsMessage::BufferIncoming(record(34))).unwrap();
    assert_eq!(
        follower.handle(MpcTlsMessage::BufferIncoming(record(34))).unwrap_err(),
        MpcTlsError::Capacity
    );

    let mut follower = active(100, 100);
    assert_eq!(follower.handle(outgoing(1, 3)).unwrap_err(), MpcTlsError::Internal);
    let mut follower = active(100, 100);
    assert_eq!(follower.handle(incoming(30, 1, true)).unwrap_err(), MpcTlsError::Internal);
}

#[test]
fn follower_ends_the_session_on_a_forged_record() {
    let mut follower = active(100, 100);
    assert_eq!(
        follower.handle(incoming(30, 0, false)).unwrap_err(),
        MpcTlsError::AeadTagMismatch
    );
    assert_eq!(follower.step(), Step::Failed);
    assert_eq!(follower.seq_in(), 0);

    let mut follower = active(100, 100);
    assert_eq!(
        follower.handle(incoming(23, 0, true)).unwrap_err(),
        MpcTlsError::AeadTagMismatch
    );
}

#[test]
fn follower_checks_configuration_and_pinned_key() {
    let mut follower = follower(100, 100, ServerPublicKeyPolicy::Any);
    follower.setup().unwrap();
    assert_eq!(
        follower.handle(MpcTlsMessage::SetProtocolVersion(ProtocolVersion::TLSv1_3)).unwrap_err(),
        MpcTlsError::InvalidConfig
    );
    assert_eq!(follower.step(), Step::Failed);

    for (spki, accepted) in [(vec![1, 2], true), (vec![1, 3], false)] {
        let mut follower = follower_with_pin();
        let outcome = follower.handle(MpcTlsMessage::SetServerCertDetails(cert(spki)));
        assert_eq!(outcome.is_ok(), accepted);
        if !accepted {
            assert_eq!(outcome.unwrap_err(), MpcTlsError::InvalidConfig);
        }
    }
}

fn follower_with_pin() -> MpcTlsFollower {
    let mut follower = follower(100, 100, ServerPublicKeyPolicy::Pinned(vec![1, 2]));
    follower.setup().unwrap();
    for command in handshake().into_iter().take(9) {
        follower.handle(command).unwrap();
    }
    assert_eq!(follower.step(), Step::SetServerCertDetails);
    follower
}

#[test]
fn follower_defers_from_the_start_when_told() {
    let mut follower = follower(100, 100, ServerPublicKeyPolicy::Any);
    follower.setup().unwrap();
    for command in handshake() {
        follower.handle(command).unwrap();
    }
    follower.handle(MpcTlsMessage::PrepareEncryption(true)).unwrap();
    assert_eq!(follower.step(), Step::DeferredDecrypt);
    assert_eq!(
        follower.handle(incoming(30, 0, true)).unwrap_err(),
        MpcTlsError::InvalidState { expected: Phase::Active, actual: Phase::DeferredDecrypt }
    );
}

#[test]
fn follower_keeps_step_with_the_leader() {
    let common = MpcTlsCommonConfig {
        max_sent_bytes: 20,
        max_recv_bytes: 100,
        server_public_key_policy: ServerPublicKeyPolicy::Any,
    };
    let mut leader = MpcTlsLeader::new(
        MpcTlsLeaderConfig { common: common.clone(), defer_decryption_from_start: false },
        KeyMaterial {
            client_random: [1; 32],
            client_key_share: vec![],
            pre_master_secret: vec![9; 32],
        },
    );
    let mut follower = MpcTlsFollower::new(MpcTlsFollowerConfig { common });
    assert_eq!(leader.setup(), follower.setup());

    let agree = |leader: &MpcTlsLeader, follower: &MpcTlsFollower| {
        assert_eq!(leader.step(), follower.step());
        assert_eq!(leader.seq_out(), follower.seq_out());
        assert_eq!(leader.seq_in(), follower.seq_in());
    };

    // A command out of order is refused by both, and moves neither.
    assert_eq!(
        leader.prepare_encryption().unwrap_err(),
        follower.handle(MpcTlsMessage::PrepareEncryption(false)).unwrap_err()
    );
    agree(&leader, &follower);

    leader.set_protocol_version(ProtocolVersion::TLSv1_2).unwrap();
    leader.set_cipher_suite(SupportedCipherSuite::EcdheRsaWithAes128GcmSha256).unwrap();
    leader.get_suite().unwrap();
    leader.set_encrypt(EncryptMode::Handshake).unwrap();
    leader.set_decrypt(DecryptMode::Handshake).unwrap();
    leader.get_client_random().unwrap();
    leader.get_client_key_share().unwrap();
    leader.set_server_random(Random([2; 32])).unwrap();
    leader
        .set_server_key_share(PublicKey { group: NamedGroup::Secp256r1, key: vec![] })
        .unwrap();
    leader.set_server_cert_details(cert(vec![1, 2])).unwrap();
    leader
        .set_server_kx_details(ServerKxDetails { kx_params: vec![], kx_sig: vec![] })
        .unwrap();
    leader.set_hs_hash_client_key_exchange(vec![0; 32]).unwrap();
    leader.get_client_finished_vd(vec![0; 32]).unwrap();
    leader.set_hs_hash_server_hello(vec![0; 32]).unwrap();
    leader.get_server_finished_vd(vec![0; 32]).unwrap();
    for command in handshake() {
        follower.handle(command).unwrap();
    }
    agree(&leader, &follower);
    leader.prepare_encryption().unwrap();
    follower.handle(MpcTlsMessage::PrepareEncryption(false)).unwrap();
    agree(&leader, &follower);

    let plain = |len: usize| PlainMessage {
        typ: ContentType::ApplicationData,
        version: ProtocolVersion::TLSv1_2,
        payload: vec![7; len],
    };
    leader.encrypt(plain(12), 0).unwrap();
    follower.handle(outgoing(12, 0)).unwrap();
    agree(&leader, &follower);

    // A forged record ends the session for both.
    let forged = record(40);
    assert_eq!(
        leader.decrypt(forged, 0).unwrap_err(),
        follower.handle(incoming(40, 0, false)).unwrap_err()
    );
    agree(&leader, &follower);
    assert_eq!(
        leader.encrypt(plain(1), 1).unwrap_err(),
        follower.handle(outgoing(1, 1)).unwrap_err()
    );
}

#[test]
fn follower_and_leader_overrun_the_budget_on_the_same_record() {
    let common = MpcTlsCommonConfig {
        max_sent_bytes: 20,
        max_recv_bytes: 100,
        server_public_key_policy: ServerPublicKeyPolicy::Any,
    };
    let mut leader = MpcTlsLeader::new(
        MpcTlsLeaderConfig { common, defer_decryption_from_start: false },
        KeyMaterial {
            client_random: [1; 32],
            client_key_share: vec![],
            pre_master_secret: vec![9; 32],
        },
    );
    leader.setup().unwrap();
    leader.set_protocol_version(ProtocolVersion::TLSv1_2).unwrap();
    leader.set_cipher_suite(SupportedCipherSuite::EcdheRsaWithAes128GcmSha256).unwrap();
    leader.get_client_random().unwrap();
    leader.get_client_key_share().unwrap();
    leader.set_server_random(Random([2; 32])).unwrap();
    leader
        .set_server_key_share(PublicKey { group: NamedGroup::Secp256r1, key: vec![] })
        .unwrap();
    leader.set_server_cert_details(cert(vec![])).unwrap();
    leader
        .set_server_kx_details(ServerKxDetails { kx_params: vec![], kx_sig: vec![] })
        .unwrap();
    leader.set_hs_hash_client_key_exchange(vec![0; 32]).unwrap();
    leader.get_client_finished_vd(vec![0; 32]).unwrap();
    leader.set_hs_hash_server_hello(vec![0; 32]).unwrap();
    leader.get_server_finished_vd(vec![0; 32]).unwrap();
    leader.prepare_encryption().unwrap();
    let mut follower = active(20, 100);

    let plain = |len: usize| PlainMessage {
        typ: ContentType::ApplicationData,
        version: ProtocolVersion::TLSv1_2,
        payload: vec![7; len],
    };
    for (seq, len) in [(0u64, 8usize), (1, 12)] {
        leader.encrypt(plain(len), seq).unwrap();
        follower.handle(outgoing(len, seq)).unwrap();
    }
    assert_eq!(leader.encrypt(plain(1), 2).unwrap_err(), MpcTlsError::Capacity);
    assert_eq!(follower.handle(outgoing(1, 2)).unwrap_err(), MpcTlsError::Capacity);
    assert_eq!(leader.step(), follower.step());
}
