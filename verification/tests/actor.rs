use tls_mpc::error::{BackendError, IoError, MpcTlsError, Phase};
use tls_mpc::leader::actor::{Context, MpcTlsLeaderCtrl};
use tls_mpc::leader::msg::{
    BackendMsgBufferLen, BackendMsgEncrypt, BackendMsgGetSuite, BackendMsgPrepareEncryption,
    BackendMsgSetProtocolVersion, CloseConnection, Commit, DeferDecryption, MpcTlsLeaderMsg,
    MpcTlsLeaderMsgReturn,
};
use tls_mpc::leader::state::Step;
use tls_mpc::leader::{
    KeyMaterial, MpcTlsCommonConfig, MpcTlsLeader, MpcTlsLeaderConfig, ServerPublicKeyPolicy,
};
use tls_mpc::msgs::{
    ContentType, DecryptMode, EncryptMode, NamedGroup, OpaqueMessage, PlainMessage,
    ProtocolVersion, PublicKey, Random, ServerCertDetails, ServerKxDetails, SupportedCipherSuite,
};
use tls_mpc::record_layer::gcm::seal;

fn leader(max_sent: u32) -> MpcTlsLeader {
    let mut leader = MpcTlsLeader::new(
        MpcTlsLeaderConfig {
            common: MpcTlsCommonConfig {
                max_sent_bytes: max_sent,
                max_recv_bytes: 1000,
                server_public_key_policy: ServerPublicKeyPolicy::Any,
            },
            defer_decryption_from_start: false,
        },
        KeyMaterial {
            client_random: [1; 32],
            client_key_share: vec![4; 65],
            pre_master_secret: vec![2; 32],
        },
    );
    leader.setup().unwrap();
    leader
}

fn cause(error: BackendError) -> String {
    match error {
        BackendError::InternalError(text) => text,
    }
}

fn shake_hands(ctrl: &mut MpcTlsLeaderCtrl) {
    ctrl.set_protocol_version(ProtocolVersion::TLSv1_2).unwrap();
    ctrl.set_cipher_suite(SupportedCipherSuite::EcdheRsaWithAes128GcmSha256).unwrap();
    assert_eq!(ctrl.get_suite().unwrap(), SupportedCipherSuite::EcdheRsaWithAes128GcmSha256);
    ctrl.set_encrypt(EncryptMode::Handshake).unwrap();
    ctrl.set_decrypt(DecryptMode::Handshake).unwrap();
    assert_eq!(ctrl.get_client_random().unwrap().0, [1; 32]);
    assert_eq!(ctrl.get_client_key_share().unwrap().key, vec![4; 65]);
    ctrl.set_server_random(Random([3; 32])).unwrap();
    ctrl.set_server_key_share(PublicKey { group: NamedGroup::Secp256r1, key: vec![4; 65] })
        .unwrap();
    ctrl.set_server_cert_details(ServerCertDetails {
        cert_chain: vec![],
        ocsp_response: vec![],
        scts: vec![],
        spki: vec![],
    })
    .unwrap();
    ctrl.set_server_kx_details(ServerKxDetails { kx_params: vec![], kx_sig: vec![] }).unwrap();
    ctrl.set_hs_hash_client_key_exchange(vec![5; 32]).unwrap();
    assert_eq!(ctrl.get_client_finished_vd(vec![6; 32]).unwrap().len(), 12);
    ctrl.set_hs_hash_server_hello(vec![7; 32]).unwrap();
    assert_eq!(ctrl.get_server_finished_vd(vec![7; 32]).unwrap().len(), 12);
    ctrl.prepare_encryption().unwrap();
}

fn application_data(bytes: &[u8]) -> PlainMessage {
    PlainMessage {
        typ: ContentType::ApplicationData,
        version: ProtocolVersion::TLSv1_2,
        payload: bytes.to_vec(),
    }
}

#[test]
fn dispatch_answers_under_the_name_of_the_message() {
    let mut actor = leader(100);
    let mut ctx = Context { stopped: false };
    let ret = MpcTlsLeaderMsg::BackendMsgSetProtocolVersion(BackendMsgSetProtocolVersion {
        version: ProtocolVersion::TLSv1_2,
    })
    .dispatch(&mut actor, &mut ctx);
    assert!(matches!(ret, MpcTlsLeaderMsgReturn::BackendMsgSetProtocolVersion(Ok(()))));
    assert_eq!(actor.step(), Step::SetCipherSuite);

    let ret =
        MpcTlsLeaderMsg::BackendMsgGetSuite(BackendMsgGetSuite).dispatch(&mut actor, &mut ctx);
    assert!(matches!(
        ret,
        MpcTlsLeaderMsgReturn::BackendMsgGetSuite(Err(MpcTlsError::InvalidState {
            expected: Phase::KeyExchange,
            actual: Phase::HandshakeSetup
        }))
    ));
    let ret =
        MpcTlsLeaderMsg::BackendMsgBufferLen(BackendMsgBufferLen).dispatch(&mut actor, &mut ctx);
    assert!(matches!(ret, MpcTlsLeaderMsgReturn::BackendMsgBufferLen(Ok(0))));
    let ret = MpcTlsLeaderMsg::BackendMsgEncrypt(BackendMsgEncrypt {
        msg: application_data(b"early"),
        seq: 0,
    })
    .dispatch(&mut actor, &mut ctx);
    assert!(matches!(
        ret,
        MpcTlsLeaderMsgReturn::BackendMsgEncrypt(Err(MpcTlsError::InvalidState {
            expected: Phase::Active,
            actual: Phase::HandshakeSetup
        }))
    ));
    let ret = MpcTlsLeaderMsg::BackendMsgPrepareEncryption(BackendMsgPrepareEncryption)
        .dispatch(&mut actor, &mut ctx);
    assert!(matches!(ret, MpcTlsLeaderMsgReturn::BackendMsgPrepareEncryption(Err(_))));
    let ret = MpcTlsLeaderMsg::DeferDecryption(DeferDecryption).dispatch(&mut actor, &mut ctx);
    assert!(matches!(ret, MpcTlsLeaderMsgReturn::DeferDecryption(Err(_))));
    let ret = MpcTlsLeaderMsg::Commit(Commit).dispatch(&mut actor, &mut ctx);
    assert!(matches!(ret, MpcTlsLeaderMsgReturn::Commit(Err(_))));
    // A close that is refused does not stop the actor.
    let ret = MpcTlsLeaderMsg::CloseConnection(CloseConnection).dispatch(&mut actor, &mut ctx);
    assert!(matches!(ret, MpcTlsLeaderMsgReturn::CloseConnection(Err(_))));
    assert!(!ctx.stopped);
    assert_eq!(actor.step(), Step::SetCipherSuite);
}

#[test]
fn controller_serves_a_whole_session() {
    let mut ctrl = leader(100).run();
    shake_hands(&mut ctrl);
    assert_eq!(ctrl.step(), Step::Active);

    let sent = ctrl.encrypt(application_data(b"hello"), 0).unwrap();
    assert_eq!(sent.payload.len(), 5 + 24);
    assert!(!ctrl.get_notify().unwrap().ready);
    ctrl.buffer_incoming(OpaqueMessage {
        typ: ContentType::ApplicationData,
        version: ProtocolVersion::TLSv1_2,
        payload: vec![0; 30],
    })
    .unwrap();
    assert_eq!(ctrl.buffer_len().unwrap(), 1);
    assert!(ctrl.get_notify().unwrap().ready);
    ctrl.defer_decryption().unwrap();
    assert!(ctrl.next_incoming().unwrap().is_none());
    ctrl.server_closed().unwrap();
    assert_eq!(ctrl.step(), Step::DeferredDecrypt);

    ctrl.close_connection().unwrap();
    assert_eq!(ctrl.step(), Step::Closed);
    // The mailbox is closed: nothing is handled any more.
    assert_eq!(cause(ctrl.buffer_len().unwrap_err()), "io error");
    assert_eq!(cause(ctrl.encrypt(application_data(b"late"), 1).unwrap_err()), "io error");
    assert_eq!(ctrl.commit().unwrap_err(), MpcTlsError::Io { cause: IoError::Closed });
    assert_eq!(ctrl.close_connection().unwrap_err(), MpcTlsError::Io { cause: IoError::Closed });

    let data = ctrl.wait().unwrap();
    assert_eq!(data.sent.len(), 1);
    assert_eq!(data.sent[0].payload, b"hello");
    assert!(data.received.is_empty());
    assert!(data.server_closed);
}

#[test]
fn controller_decrypts_what_the_server_sealed() {
    let mut ctrl = leader(100).run();
    shake_hands(&mut ctrl);
    // Server keys of this session, derived as the handshake derives them.
    let ms = tls_mpc::prf::master_secret(&[2; 32], &[5; 32]);
    let block = tls_mpc::prf::key_block(&ms, &[3; 32], &[1; 32]);
    let server = tls_mpc::cipher::Keystream::new(
        tls_mpc::bytes::array16(&block, 16),
        tls_mpc::bytes::array4(&block, 36),
    );
    let nonce = [8u8; 8];
    let aad = tls_mpc::msgs::make_aad(0, ContentType::ApplicationData, ProtocolVersion::TLSv1_2, 4);
    let mut payload = nonce.to_vec();
    payload.extend(seal(&server, &nonce, &aad, &b"pong".to_vec()).unwrap());
    let record = OpaqueMessage {
        typ: ContentType::ApplicationData,
        version: ProtocolVersion::TLSv1_2,
        payload,
    };
    ctrl.buffer_incoming(record).unwrap();
    let record = ctrl.next_incoming().unwrap().unwrap();
    assert_eq!(ctrl.decrypt(record, 0).unwrap().payload, b"pong");
    ctrl.commit().unwrap();
    assert_eq!(ctrl.step(), Step::Committed);
    ctrl.close_connection().unwrap();
    assert_eq!(ctrl.wait().unwrap().received[0].payload, b"pong");
}

#[test]
fn controller_reports_errors_as_text() {
    let mut ctrl = leader(16).run();
    assert_eq!(cause(ctrl.encrypt(application_data(b"early"), 0).unwrap_err()), "invalid state");
    assert_eq!(
        cause(ctrl.set_protocol_version(ProtocolVersion::TLSv1_1).unwrap_err()),
        "invalid configuration"
    );
    assert_eq!(ctrl.step(), Step::Failed);
    assert_eq!(cause(ctrl.buffer_len().unwrap_err()), "invalid state");
    assert_eq!(
        ctrl.close_connection().unwrap_err(),
        MpcTlsError::InvalidState { expected: Phase::Active, actual: Phase::Failed }
    );
    // A session that did not close resolves with an error.
    assert_eq!(
        ctrl.wait().unwrap_err(),
        MpcTlsError::InvalidState { expected: Phase::Closed, actual: Phase::Failed }
    );

    let mut ctrl = leader(16).run();
    shake_hands(&mut ctrl);
    ctrl.encrypt(application_data(&[0; 10]), 0).unwrap();
    assert_eq!(
        cause(ctrl.encrypt(application_data(&[0; 10]), 1).unwrap_err()),
        "capacity exceeded"
    );
    assert_eq!(ctrl.step(), Step::Failed);

    let mut ctrl = leader(16).run();
    shake_hands(&mut ctrl);
    let forged = OpaqueMessage {
        typ: ContentType::ApplicationData,
        version: ProtocolVersion::TLSv1_2,
        payload: vec![0; 40],
    };
    assert_eq!(cause(ctrl.decrypt(forged, 0).unwrap_err()), "tag mismatch");
}

#[test]
fn every_error_has_its_text_and_only_a_wrong_state_is_not_fatal() {
    let wrong_state = MpcTlsError::InvalidState { expected: Phase::Active, actual: Phase::Init };
    assert!(!wrong_state.fatal());
    assert_eq!(wrong_state.to_string(), "invalid state");
    let fatal = [
        (MpcTlsError::InvalidConfig, "invalid configuration"),
        (MpcTlsError::Capacity, "capacity exceeded"),
        (
            MpcTlsError::PeerMisbehaved { reason: tls_mpc::error::Misbehavior::UnexpectedMessage },
            "peer misbehaved",
        ),
        (MpcTlsError::AeadTagMismatch, "tag mismatch"),
        (MpcTlsError::io(IoError::Framing), "io error"),
        (MpcTlsError::vm(tls_mpc::error::VmError::LengthMismatch), "vm error"),
        (MpcTlsError::decode(tls_mpc::error::DecodeError::Unassigned), "decode error"),
        (MpcTlsError::Internal, "internal error"),
    ];
    for (error, text) in fatal {
        assert!(error.fatal());
        assert_eq!(error.to_string(), text);
        assert_eq!(cause(BackendError::from_engine(error)), text);
    }
}

#[test]
fn wire_codes_of_versions_and_content_types() {
    assert_eq!(ProtocolVersion::TLSv1_2.get_u16(), 0x0303);
    assert_eq!(ProtocolVersion::TLSv1_3.get_u16(), 0x0304);
    assert_eq!(ProtocolVersion::SSLv2.get_u16(), 0x0200);
    assert_eq!(ProtocolVersion::Unknown(0x1234).get_u16(), 0x1234);
    assert_eq!(ContentType::ChangeCipherSpec.get_u8(), 20);
    assert_eq!(ContentType::Alert.get_u8(), 21);
    assert_eq!(ContentType::Handshake.get_u8(), 22);
    assert_eq!(ContentType::ApplicationData.get_u8(), 23);
    assert_eq!(ContentType::Heartbeat.get_u8(), 24);
    assert_eq!(ContentType::Unknown(99).get_u8(), 99);
    assert!(SupportedCipherSuite::EcdheEcdsaWithAes128GcmSha256.supported());
    assert!(!SupportedCipherSuite::Tls13Aes128GcmSha256.supported());
    assert_eq!(
        tls_mpc::msgs::make_aad(
            0x0102030405060708,
            ContentType::Handshake,
            ProtocolVersion::TLSv1_2,
            0x1234
        ),
        [1, 2, 3, 4, 5, 6, 7, 8, 22, 3, 3, 0x12, 0x34]
    );
}
