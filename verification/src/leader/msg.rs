//! The messages of the leader's mailbox: one per operation, and the reply to
//! each.

use crate::error::MpcTlsError;
use crate::leader::state::Session;
use crate::msgs::{
    BackendNotify, DecryptMode, EncryptMode, OpaqueMessage, PlainMessage, ProtocolVersion,
    PublicKey, Random, Record, ServerCertDetails, ServerKxDetails, SupportedCipherSuite,
};
use vstd::prelude::*;

verus! {

/// Sets the protocol version.
#[derive(Debug)]
pub struct BackendMsgSetProtocolVersion {
    pub version: ProtocolVersion,
}

/// Sets the cipher suite.
#[derive(Debug)]
pub struct BackendMsgSetCipherSuite {
    pub suite: SupportedCipherSuite,
}

/// Asks for the cipher suite agreed.
#[derive(Debug)]
pub struct BackendMsgGetSuite;

/// Sets the mode of outgoing protection.
#[derive(Debug)]
pub struct BackendMsgSetEncrypt {
    pub mode: EncryptMode,
}

/// Sets the mode of incoming protection.
#[derive(Debug)]
pub struct BackendMsgSetDecrypt {
    pub mode: DecryptMode,
}

/// Asks for the client random.
#[derive(Debug)]
pub struct BackendMsgGetClientRandom;

/// Asks for the client key share.
#[derive(Debug)]
pub struct BackendMsgGetClientKeyShare;

/// Sets the server random.
#[derive(Debug)]
pub struct BackendMsgSetServerRandom {
    pub random: Random,
}

/// Sets the server key share.
#[derive(Debug)]
pub struct BackendMsgSetServerKeyShare {
    pub key: PublicKey,
}

/// Sets what the server presented as its identity.
#[derive(Debug)]
pub struct BackendMsgSetServerCertDetails {
    pub cert_details: ServerCertDetails,
}

/// Sets the server's signed key exchange parameters.
#[derive(Debug)]
pub struct BackendMsgSetServerKxDetails {
    pub kx_details: ServerKxDetails,
}

/// Sets the handshake hash up to the client key exchange.
#[derive(Debug)]
pub struct BackendMsgSetHsHashClientKeyExchange {
    pub hash: Vec<u8>,
}

/// Sets the handshake hash up to the server hello.
#[derive(Debug)]
pub struct BackendMsgSetHsHashServerHello {
    pub hash: Vec<u8>,
}

/// Asks for the server's Finished verify data.
#[derive(Debug)]
pub struct BackendMsgGetServerFinishedVd {
    pub hash: Vec<u8>,
}

/// Asks for the client's Finished verify data.
#[derive(Debug)]
pub struct BackendMsgGetClientFinishedVd {
    pub hash: Vec<u8>,
}

/// Asks to make the record layer ready.
#[derive(Debug)]
pub struct BackendMsgPrepareEncryption;

/// Asks to protect an outgoing record.
#[derive(Debug)]
pub struct BackendMsgEncrypt {
    pub msg: PlainMessage,
    pub seq: u64,
}

/// Asks to take in a protected record.
#[derive(Debug)]
pub struct BackendMsgDecrypt {
    pub msg: OpaqueMessage,
    pub seq: u64,
}

/// Asks for the oldest buffered record.
#[derive(Debug)]
pub struct BackendMsgNextIncoming;

/// Hands in a protected record for later.
#[derive(Debug)]
pub struct BackendMsgBufferIncoming {
    pub msg: OpaqueMessage,
}

/// Asks whether work is ready.
#[derive(Debug)]
pub struct BackendMsgGetNotify;

/// Asks how many records are buffered.
#[derive(Debug)]
pub struct BackendMsgBufferLen;

/// Tells that the server closed its end.
#[derive(Debug)]
pub struct BackendMsgServerClosed;

/// Asks to defer decryption.
#[derive(Debug)]
pub struct DeferDecryption;

/// Asks to close the connection.
#[derive(Debug)]
pub struct CloseConnection;

/// Asks to commit to the transcript.
#[derive(Debug)]
pub struct Commit;

/// A message to the leader.
#[derive(Debug)]
pub enum MpcTlsLeaderMsg {
    BackendMsgSetProtocolVersion(BackendMsgSetProtocolVersion),
    BackendMsgSetCipherSuite(BackendMsgSetCipherSuite),
    BackendMsgGetSuite(BackendMsgGetSuite),
    BackendMsgSetEncrypt(BackendMsgSetEncrypt),
    BackendMsgSetDecrypt(BackendMsgSetDecrypt),
    BackendMsgGetClientRandom(BackendMsgGetClientRandom),
    BackendMsgGetClientKeyShare(BackendMsgGetClientKeyShare),
    BackendMsgSetServerRandom(BackendMsgSetServerRandom),
    BackendMsgSetServerKeyShare(BackendMsgSetServerKeyShare),
    BackendMsgSetServerCertDetails(BackendMsgSetServerCertDetails),
    BackendMsgSetServerKxDetails(BackendMsgSetServerKxDetails),
    BackendMsgSetHsHashClientKeyExchange(BackendMsgSetHsHashClientKeyExchange),
    BackendMsgSetHsHashServerHello(BackendMsgSetHsHashServerHello),
    BackendMsgGetServerFinishedVd(BackendMsgGetServerFinishedVd),
    BackendMsgGetClientFinishedVd(BackendMsgGetClientFinishedVd),
    BackendMsgPrepareEncryption(BackendMsgPrepareEncryption),
    BackendMsgEncrypt(BackendMsgEncrypt),
    BackendMsgDecrypt(BackendMsgDecrypt),
    BackendMsgNextIncoming(BackendMsgNextIncoming),
    BackendMsgBufferIncoming(BackendMsgBufferIncoming),
    BackendMsgGetNotify(BackendMsgGetNotify),
    BackendMsgBufferLen(BackendMsgBufferLen),
    BackendMsgServerClosed(BackendMsgServerClosed),
    DeferDecryption(DeferDecryption),
    CloseConnection(CloseConnection),
    Commit(Commit),
}

/// The reply to a message, under the name of the message it answers.
#[derive(Debug)]
pub enum MpcTlsLeaderMsgReturn {
    BackendMsgSetProtocolVersion(Result<(), MpcTlsError>),
    BackendMsgSetCipherSuite(Result<(), MpcTlsError>),
    BackendMsgGetSuite(Result<SupportedCipherSuite, MpcTlsError>),
    BackendMsgSetEncrypt(Result<(), MpcTlsError>),
    BackendMsgSetDecrypt(Result<(), MpcTlsError>),
    BackendMsgGetClientRandom(Result<Random, MpcTlsError>),
    BackendMsgGetClientKeyShare(Result<PublicKey, MpcTlsError>),
    BackendMsgSetServerRandom(Result<(), MpcTlsError>),
    BackendMsgSetServerKeyShare(Result<(), MpcTlsError>),
    BackendMsgSetServerCertDetails(Result<(), MpcTlsError>),
    BackendMsgSetServerKxDetails(Result<(), MpcTlsError>),
    BackendMsgSetHsHashClientKeyExchange(Result<(), MpcTlsError>),
    BackendMsgSetHsHashServerHello(Result<(), MpcTlsError>),
    BackendMsgGetServerFinishedVd(Result<Vec<u8>, MpcTlsError>),
    BackendMsgGetClientFinishedVd(Result<Vec<u8>, MpcTlsError>),
    BackendMsgPrepareEncryption(Result<(), MpcTlsError>),
    BackendMsgEncrypt(Result<OpaqueMessage, MpcTlsError>),
    BackendMsgDecrypt(Result<PlainMessage, MpcTlsError>),
    BackendMsgNextIncoming(Result<Option<OpaqueMessage>, MpcTlsError>),
    BackendMsgBufferIncoming(Result<(), MpcTlsError>),
    BackendMsgGetNotify(Result<BackendNotify, MpcTlsError>),
    BackendMsgBufferLen(Result<usize, MpcTlsError>),
    BackendMsgServerClosed(Result<(), MpcTlsError>),
    DeferDecryption(Result<(), MpcTlsError>),
    CloseConnection(Result<(), MpcTlsError>),
    Commit(Result<(), MpcTlsError>),
}

/// What a reply says, as a mathematical value.
pub enum Outcome {
    Unit(Result<(), MpcTlsError>),
    Suite(Result<SupportedCipherSuite, MpcTlsError>),
    Bytes(Result<Seq<u8>, MpcTlsError>),
    Message(Result<Record, MpcTlsError>),
    Next(Result<Option<Record>, MpcTlsError>),
    Notify(Result<BackendNotify, MpcTlsError>),
    Len(Result<nat, MpcTlsError>),
}

/// The operations of the mailbox.
#[derive(Debug, Clone, Copy, PartialEq, Eq, Structural)]
pub enum Operation {
    SetProtocolVersion,
    SetCipherSuite,
    GetSuite,
    SetEncrypt,
    SetDecrypt,
    GetClientRandom,
    GetClientKeyShare,
    SetServerRandom,
    SetServerKeyShare,
    SetServerCertDetails,
    SetServerKxDetails,
    SetHsHashClientKeyExchange,
    SetHsHashServerHello,
    GetServerFinishedVd,
    GetClientFinishedVd,
    PrepareEncryption,
    Encrypt,
    Decrypt,
    NextIncoming,
    BufferIncoming,
    GetNotify,
    BufferLen,
    ServerClosed,
    DeferDecryption,
    CloseConnection,
    Commit,
}

impl MpcTlsLeaderMsg {
    /// The operation a message asks for.
    pub open spec fn operation(&self) -> Operation {
        match self {
            MpcTlsLeaderMsg::BackendMsgSetProtocolVersion(_) => Operation::SetProtocolVersion,
            MpcTlsLeaderMsg::BackendMsgSetCipherSuite(_) => Operation::SetCipherSuite,
            MpcTlsLeaderMsg::BackendMsgGetSuite(_) => Operation::GetSuite,
            MpcTlsLeaderMsg::BackendMsgSetEncrypt(_) => Operation::SetEncrypt,
            MpcTlsLeaderMsg::BackendMsgSetDecrypt(_) => Operation::SetDecrypt,
            MpcTlsLeaderMsg::BackendMsgGetClientRandom(_) => Operation::GetClientRandom,
            MpcTlsLeaderMsg::BackendMsgGetClientKeyShare(_) => Operation::GetClientKeyShare,
            MpcTlsLeaderMsg::BackendMsgSetServerRandom(_) => Operation::SetServerRandom,
            MpcTlsLeaderMsg::BackendMsgSetServerKeyShare(_) => Operation::SetServerKeyShare,
            MpcTlsLeaderMsg::BackendMsgSetServerCertDetails(_) => Operation::SetServerCertDetails,
            MpcTlsLeaderMsg::BackendMsgSetServerKxDetails(_) => Operation::SetServerKxDetails,
            MpcTlsLeaderMsg::BackendMsgSetHsHashClientKeyExchange(_) =>
                Operation::SetHsHashClientKeyExchange,
            MpcTlsLeaderMsg::BackendMsgSetHsHashServerHello(_) => Operation::SetHsHashServerHello,
            MpcTlsLeaderMsg::BackendMsgGetServerFinishedVd(_) => Operation::GetServerFinishedVd,
            MpcTlsLeaderMsg::BackendMsgGetClientFinishedVd(_) => Operation::GetClientFinishedVd,
            MpcTlsLeaderMsg::BackendMsgPrepareEncryption(_) => Operation::PrepareEncryption,
            MpcTlsLeaderMsg::BackendMsgEncrypt(_) => Operation::Encrypt,
            MpcTlsLeaderMsg::BackendMsgDecrypt(_) => Operation::Decrypt,
            MpcTlsLeaderMsg::BackendMsgNextIncoming(_) => Operation::NextIncoming,
            MpcTlsLeaderMsg::BackendMsgBufferIncoming(_) => Operation::BufferIncoming,
            MpcTlsLeaderMsg::BackendMsgGetNotify(_) => Operation::GetNotify,
            MpcTlsLeaderMsg::BackendMsgBufferLen(_) => Operation::BufferLen,
            MpcTlsLeaderMsg::BackendMsgServerClosed(_) => Operation::ServerClosed,
            MpcTlsLeaderMsg::DeferDecryption(_) => Operation::DeferDecryption,
            MpcTlsLeaderMsg::CloseConnection(_) => Operation::CloseConnection,
            MpcTlsLeaderMsg::Commit(_) => Operation::Commit,
        }
    }

    /// What a message does to a session, and the reply it gets.
    pub open spec fn apply(&self, session: Session) -> (Session, Outcome) {
        match self {
            MpcTlsLeaderMsg::BackendMsgSetProtocolVersion(m) => {
                let step = session.set_protocol_version(m.version);
                (step.0, Outcome::Unit(step.1))
            },
            MpcTlsLeaderMsg::BackendMsgSetCipherSuite(m) => {
                let step = session.set_cipher_suite(m.suite);
                (step.0, Outcome::Unit(step.1))
            },
            MpcTlsLeaderMsg::BackendMsgGetSuite(m) => {
                let step = (session, session.get_suite());
                (step.0, Outcome::Suite(step.1))
            },
            MpcTlsLeaderMsg::BackendMsgSetEncrypt(m) => {
                let step = (session, session.set_mode());
                (step.0, Outcome::Unit(step.1))
            },
            MpcTlsLeaderMsg::BackendMsgSetDecrypt(m) => {
                let step = (session, session.set_mode());
                (step.0, Outcome::Unit(step.1))
            },
            MpcTlsLeaderMsg::BackendMsgGetClientRandom(m) => {
                let step = session.get_client_random();
                (step.0, Outcome::Bytes(step.1))
            },
            MpcTlsLeaderMsg::BackendMsgGetClientKeyShare(m) => {
                let step = session.get_client_key_share();
                (step.0, Outcome::Bytes(step.1))
            },
            MpcTlsLeaderMsg::BackendMsgSetServerRandom(m) => {
                let step = session.set_server_random(m.random.0@);
                (step.0, Outcome::Unit(step.1))
            },
            MpcTlsLeaderMsg::BackendMsgSetServerKeyShare(m) => {
                let step = session.set_server_key_share();
                (step.0, Outcome::Unit(step.1))
            },
            MpcTlsLeaderMsg::BackendMsgSetServerCertDetails(m) => {
                let step = session.set_server_cert_details(m.cert_details.spki@);
                (step.0, Outcome::Unit(step.1))
            },
            MpcTlsLeaderMsg::BackendMsgSetServerKxDetails(m) => {
                let step = session.set_server_kx_details();
                (step.0, Outcome::Unit(step.1))
            },
            MpcTlsLeaderMsg::BackendMsgSetHsHashClientKeyExchange(m) => {
                let step = session.set_hs_hash_client_key_exchange(m.hash@);
                (step.0, Outcome::Unit(step.1))
            },
            MpcTlsLeaderMsg::BackendMsgSetHsHashServerHello(m) => {
                let step = session.set_hs_hash_server_hello();
                (step.0, Outcome::Unit(step.1))
            },
            MpcTlsLeaderMsg::BackendMsgGetServerFinishedVd(m) => {
                let step = session.get_server_finished_vd(m.hash@);
                (step.0, Outcome::Bytes(step.1))
            },
            MpcTlsLeaderMsg::BackendMsgGetClientFinishedVd(m) => {
                let step = session.get_client_finished_vd(m.hash@);
                (step.0, Outcome::Bytes(step.1))
            },
            MpcTlsLeaderMsg::BackendMsgPrepareEncryption(m) => {
                let step = session.prepare_encryption();
                (step.0, Outcome::Unit(step.1))
            },
            MpcTlsLeaderMsg::BackendMsgEncrypt(m) => {
                let step = session.encrypt(m.msg@, m.seq);
                (step.0, Outcome::Message(step.1))
            },
            MpcTlsLeaderMsg::BackendMsgDecrypt(m) => {
                let step = session.decrypt(m.msg@, m.seq);
                (step.0, Outcome::Message(step.1))
            },
            MpcTlsLeaderMsg::BackendMsgNextIncoming(m) => {
                let step = session.next_incoming();
                (step.0, Outcome::Next(step.1))
            },
            MpcTlsLeaderMsg::BackendMsgBufferIncoming(m) => {
                let step = session.buffer_incoming(m.msg@);
                (step.0, Outcome::Unit(step.1))
            },
            MpcTlsLeaderMsg::BackendMsgGetNotify(m) => {
                let step = (session, session.get_notify());
                (step.0, Outcome::Notify(step.1))
            },
            MpcTlsLeaderMsg::BackendMsgBufferLen(m) => {
                let step = (session, session.buffer_len());
                (step.0, Outcome::Len(step.1))
            },
            MpcTlsLeaderMsg::BackendMsgServerClosed(m) => {
                let step = session.server_closed();
                (step.0, Outcome::Unit(step.1))
            },
            MpcTlsLeaderMsg::DeferDecryption(m) => {
                let step = session.defer_decryption();
                (step.0, Outcome::Unit(step.1))
            },
            MpcTlsLeaderMsg::CloseConnection(m) => {
                let step = session.close_connection();
                (step.0, Outcome::Unit(step.1))
            },
            MpcTlsLeaderMsg::Commit(m) => {
                let step = session.commit();
                (step.0, Outcome::Unit(step.1))
            },
        }
    }
}

impl MpcTlsLeaderMsgReturn {
    /// The operation a reply answers.
    pub open spec fn operation(&self) -> Operation {
        match self {
            MpcTlsLeaderMsgReturn::BackendMsgSetProtocolVersion(_) => Operation::SetProtocolVersion,
            MpcTlsLeaderMsgReturn::BackendMsgSetCipherSuite(_) => Operation::SetCipherSuite,
            MpcTlsLeaderMsgReturn::BackendMsgGetSuite(_) => Operation::GetSuite,
            MpcTlsLeaderMsgReturn::BackendMsgSetEncrypt(_) => Operation::SetEncrypt,
            MpcTlsLeaderMsgReturn::BackendMsgSetDecrypt(_) => Operation::SetDecrypt,
            MpcTlsLeaderMsgReturn::BackendMsgGetClientRandom(_) => Operation::GetClientRandom,
            MpcTlsLeaderMsgReturn::BackendMsgGetClientKeyShare(_) => Operation::GetClientKeyShare,
            MpcTlsLeaderMsgReturn::BackendMsgSetServerRandom(_) => Operation::SetServerRandom,
            MpcTlsLeaderMsgReturn::BackendMsgSetServerKeyShare(_) => Operation::SetServerKeyShare,
            MpcTlsLeaderMsgReturn::BackendMsgSetServerCertDetails(_) =>
                Operation::SetServerCertDetails,
            MpcTlsLeaderMsgReturn::BackendMsgSetServerKxDetails(_) => Operation::SetServerKxDetails,
            MpcTlsLeaderMsgReturn::BackendMsgSetHsHashClientKeyExchange(_) =>
                Operation::SetHsHashClientKeyExchange,
            MpcTlsLeaderMsgReturn::BackendMsgSetHsHashServerHello(_) =>
                Operation::SetHsHashServerHello,
            MpcTlsLeaderMsgReturn::BackendMsgGetServerFinishedVd(_) =>
                Operation::GetServerFinishedVd,
            MpcTlsLeaderMsgReturn::BackendMsgGetClientFinishedVd(_) =>
                Operation::GetClientFinishedVd,
            MpcTlsLeaderMsgReturn::BackendMsgPrepareEncryption(_) => Operation::PrepareEncryption,
            MpcTlsLeaderMsgReturn::BackendMsgEncrypt(_) => Operation::Encrypt,
            MpcTlsLeaderMsgReturn::BackendMsgDecrypt(_) => Operation::Decrypt,
            MpcTlsLeaderMsgReturn::BackendMsgNextIncoming(_) => Operation::NextIncoming,
            MpcTlsLeaderMsgReturn::BackendMsgBufferIncoming(_) => Operation::BufferIncoming,
            MpcTlsLeaderMsgReturn::BackendMsgGetNotify(_) => Operation::GetNotify,
            MpcTlsLeaderMsgReturn::BackendMsgBufferLen(_) => Operation::BufferLen,
            MpcTlsLeaderMsgReturn::BackendMsgServerClosed(_) => Operation::ServerClosed,
            MpcTlsLeaderMsgReturn::DeferDecryption(_) => Operation::DeferDecryption,
            MpcTlsLeaderMsgReturn::CloseConnection(_) => Operation::CloseConnection,
            MpcTlsLeaderMsgReturn::Commit(_) => Operation::Commit,
        }
    }

    /// What a reply says.
    pub open spec fn outcome(&self) -> Outcome {
        match self {
            MpcTlsLeaderMsgReturn::BackendMsgSetProtocolVersion(reply) => Outcome::Unit(*reply),
            MpcTlsLeaderMsgReturn::BackendMsgSetCipherSuite(reply) => Outcome::Unit(*reply),
            MpcTlsLeaderMsgReturn::BackendMsgGetSuite(reply) => Outcome::Suite(*reply),
            MpcTlsLeaderMsgReturn::BackendMsgSetEncrypt(reply) => Outcome::Unit(*reply),
            MpcTlsLeaderMsgReturn::BackendMsgSetDecrypt(reply) => Outcome::Unit(*reply),
            MpcTlsLeaderMsgReturn::BackendMsgGetClientRandom(reply) => Outcome::Bytes(
                match reply {
                    Ok(random) => Ok(random.0@),
                    Err(error) => Err(*error),
                },
            ),
            MpcTlsLeaderMsgReturn::BackendMsgGetClientKeyShare(reply) => Outcome::Bytes(
                match reply {
                    Ok(share) => Ok(share.key@),
                    Err(error) => Err(*error),
                },
            ),
            MpcTlsLeaderMsgReturn::BackendMsgSetServerRandom(reply) => Outcome::Unit(*reply),
            MpcTlsLeaderMsgReturn::BackendMsgSetServerKeyShare(reply) => Outcome::Unit(*reply),
            MpcTlsLeaderMsgReturn::BackendMsgSetServerCertDetails(reply) => Outcome::Unit(*reply),
            MpcTlsLeaderMsgReturn::BackendMsgSetServerKxDetails(reply) => Outcome::Unit(*reply),
            MpcTlsLeaderMsgReturn::BackendMsgSetHsHashClientKeyExchange(reply) =>
                Outcome::Unit(*reply),
            MpcTlsLeaderMsgReturn::BackendMsgSetHsHashServerHello(reply) => Outcome::Unit(*reply),
            MpcTlsLeaderMsgReturn::BackendMsgGetServerFinishedVd(reply) => Outcome::Bytes(
                match reply {
                    Ok(bytes) => Ok(bytes@),
                    Err(error) => Err(*error),
                },
            ),
            MpcTlsLeaderMsgReturn::BackendMsgGetClientFinishedVd(reply) => Outcome::Bytes(
                match reply {
                    Ok(bytes) => Ok(bytes@),
                    Err(error) => Err(*error),
                },
            ),
            MpcTlsLeaderMsgReturn::BackendMsgPrepareEncryption(reply) => Outcome::Unit(*reply),
            MpcTlsLeaderMsgReturn::BackendMsgEncrypt(reply) => Outcome::Message(
                match reply {
                    Ok(message) => Ok(message@),
                    Err(error) => Err(*error),
                },
            ),
            MpcTlsLeaderMsgReturn::BackendMsgDecrypt(reply) => Outcome::Message(
                match reply {
                    Ok(message) => Ok(message@),
                    Err(error) => Err(*error),
                },
            ),
            MpcTlsLeaderMsgReturn::BackendMsgNextIncoming(reply) => Outcome::Next(
                match reply {
                    Ok(Some(message)) => Ok(Some(message@)),
                    Ok(None) => Ok(None),
                    Err(error) => Err(*error),
                },
            ),
            MpcTlsLeaderMsgReturn::BackendMsgBufferIncoming(reply) => Outcome::Unit(*reply),
            MpcTlsLeaderMsgReturn::BackendMsgGetNotify(reply) => Outcome::Notify(*reply),
            MpcTlsLeaderMsgReturn::BackendMsgBufferLen(reply) => Outcome::Len(
                match reply {
                    Ok(len) => Ok(*len as nat),
                    Err(error) => Err(*error),
                },
            ),
            MpcTlsLeaderMsgReturn::BackendMsgServerClosed(reply) => Outcome::Unit(*reply),
            MpcTlsLeaderMsgReturn::DeferDecryption(reply) => Outcome::Unit(*reply),
            MpcTlsLeaderMsgReturn::CloseConnection(reply) => Outcome::Unit(*reply),
            MpcTlsLeaderMsgReturn::Commit(reply) => Outcome::Unit(*reply),
        }
    }
}

} // verus!
