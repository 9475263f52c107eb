//! The leader's session as a mathematical value, and what each operation of
//! the backend surface does to it.

use crate::error::{MpcTlsError, Phase};
use crate::msgs::{
    be64, record_aad, BackendNotify, ProtocolVersion, Record, SupportedCipherSuite,
    MAX_PLAINTEXT_LEN, RECORD_OVERHEAD,
};
use crate::prf::{
    client_finished_bytes, key_block_bytes, master_secret_bytes, server_finished_bytes,
};
use crate::record_layer::gcm::{gcm_open, gcm_seal};
use vstd::prelude::*;

verus! {

/// Where a session stands: the handshake operation due next, or the mode it
/// is in once the handshake is done.
#[derive(Debug, Clone, Copy, PartialEq, Eq, Structural)]
pub enum Step {
    Setup,
    SetProtocolVersion,
    SetCipherSuite,
    GetClientRandom,
    GetClientKeyShare,
    SetServerRandom,
    SetServerKeyShare,
    SetServerCertDetails,
    SetServerKxDetails,
    SetHsHashClientKeyExchange,
    GetClientFinishedVd,
    SetHsHashServerHello,
    GetServerFinishedVd,
    PrepareEncryption,
    Active,
    DeferredDecrypt,
    Committed,
    Closed,
    Failed,
}

impl Step {
    /// The phase a step belongs to.
    pub open spec fn phase(&self) -> Phase {
        match self {
            Step::Setup => Phase::Init,
            Step::SetProtocolVersion | Step::SetCipherSuite => Phase::HandshakeSetup,
            Step::GetClientRandom
            | Step::GetClientKeyShare
            | Step::SetServerRandom
            | Step::SetServerKeyShare => Phase::KeyExchange,
            Step::SetServerCertDetails
            | Step::SetServerKxDetails
            | Step::SetHsHashClientKeyExchange => Phase::DeriveMasterSecret,
            Step::GetClientFinishedVd => Phase::ClientFinished,
            Step::SetHsHashServerHello
            | Step::GetServerFinishedVd
            | Step::PrepareEncryption => Phase::ServerFinished,
            Step::Active => Phase::Active,
            Step::DeferredDecrypt => Phase::DeferredDecrypt,
            Step::Committed => Phase::Committed,
            Step::Closed => Phase::Closed,
            Step::Failed => Phase::Failed,
        }
    }

    /// Computes the phase a step belongs to.
    pub fn get_phase(&self) -> (phase: Phase)
        ensures
            phase == self.phase(),
    {
        match self {
            Step::Setup => Phase::Init,
            Step::SetProtocolVersion | Step::SetCipherSuite => Phase::HandshakeSetup,
            Step::GetClientRandom
            | Step::GetClientKeyShare
            | Step::SetServerRandom
            | Step::SetServerKeyShare => Phase::KeyExchange,
            Step::SetServerCertDetails
            | Step::SetServerKxDetails
            | Step::SetHsHashClientKeyExchange => Phase::DeriveMasterSecret,
            Step::GetClientFinishedVd => Phase::ClientFinished,
            Step::SetHsHashServerHello
            | Step::GetServerFinishedVd
            | Step::PrepareEncryption => Phase::ServerFinished,
            Step::Active => Phase::Active,
            Step::DeferredDecrypt => Phase::DeferredDecrypt,
            Step::Committed => Phase::Committed,
            Step::Closed => Phase::Closed,
            Step::Failed => Phase::Failed,
        }
    }

    /// Records flow in these two modes.
    pub open spec fn is_open(&self) -> bool {
        *self == Step::Active || *self == Step::DeferredDecrypt
    }

    /// The cipher suite has been agreed by these steps.
    pub open spec fn has_suite(&self) -> bool {
        !(*self == Step::Setup || *self == Step::SetProtocolVersion || *self
            == Step::SetCipherSuite || *self == Step::Failed)
    }
}

/// Which server keys a session accepts.
pub enum KeyPolicy {
    Any,
    Pinned(Seq<u8>),
}

/// The options of a session.
pub struct Config {
    pub max_sent_bytes: nat,
    pub max_recv_bytes: nat,
    pub defer_decryption_from_start: bool,
    pub server_public_key_policy: KeyPolicy,
}

/// The four secrets of the key block.
pub struct SessionKeys {
    pub client_write_key: Seq<u8>,
    pub server_write_key: Seq<u8>,
    pub client_write_iv: Seq<u8>,
    pub server_write_iv: Seq<u8>,
}

/// Cuts a key block into the four secrets it holds, in wire order.
pub open spec fn split_key_block(block: Seq<u8>) -> SessionKeys {
    SessionKeys {
        client_write_key: block.subrange(0, 16),
        server_write_key: block.subrange(16, 32),
        client_write_iv: block.subrange(32, 36),
        server_write_iv: block.subrange(36, 40),
    }
}

/// The leader's session.
pub struct Session {
    pub config: Config,
    pub step: Step,
    pub client_random: Seq<u8>,
    pub client_key_share: Seq<u8>,
    pub pre_master_secret: Seq<u8>,
    pub suite: SupportedCipherSuite,
    pub server_random: Seq<u8>,
    pub master_secret: Seq<u8>,
    pub keys: SessionKeys,
    pub seq_out: u64,
    pub seq_in: u64,
    pub sent_bytes: nat,
    pub recv_bytes: nat,
    pub buffer: Seq<Record>,
    pub sent: Seq<Record>,
    pub received: Seq<Record>,
    pub server_closed: bool,
}

/// Bytes of plaintext a protected record of `payload_len` bytes carries.
pub open spec fn plaintext_len(payload_len: nat) -> nat {
    if payload_len >= RECORD_OVERHEAD {
        (payload_len - RECORD_OVERHEAD) as nat
    } else {
        0
    }
}

/// Bytes of plaintext held in `buffer`.
pub open spec fn pending_bytes(buffer: Seq<Record>) -> nat
    decreases buffer.len(),
{
    if buffer.len() == 0 {
        0
    } else {
        pending_bytes(buffer.drop_last()) + plaintext_len(buffer.last().payload.len())
    }
}

/// The protected record that carries `record` under sequence number `seq`:
/// explicit nonce, ciphertext, tag.
pub open spec fn protect(keys: SessionKeys, seq: u64, record: Record) -> Record {
    Record {
        payload: be64(seq) + gcm_seal(
            keys.client_write_key,
            keys.client_write_iv,
            be64(seq),
            record_aad(seq, record.typ, record.version, record.payload.len()),
            record.payload,
        ),
        ..record
    }
}

/// The record in the clear that the protected `record` carries under
/// sequence number `seq`, if it is authentic.
pub open spec fn unprotect(keys: SessionKeys, seq: u64, record: Record) -> Option<Record> {
    if record.payload.len() < RECORD_OVERHEAD {
        None
    } else {
        let len = record.payload.len() as int;
        match gcm_open(
            keys.server_write_key,
            keys.server_write_iv,
            record.payload.subrange(0, 8),
            record_aad(seq, record.typ, record.version, (len - RECORD_OVERHEAD) as nat),
            record.payload.subrange(8, len - 16),
            record.payload.subrange(len - 16, len),
        ) {
            Some(plaintext) => Some(Record { payload: plaintext, ..record }),
            None => None,
        }
    }
}

impl Session {
    /// The session with its step replaced.
    pub open spec fn at(self, step: Step) -> Session {
        Session { step, ..self }
    }

    /// The session after a fatal error.
    pub open spec fn failed(self) -> Session {
        self.at(Step::Failed)
    }

    /// The refusal of an operation that belongs to `expected`.
    pub open spec fn wrong_state(self, expected: Phase) -> MpcTlsError {
        MpcTlsError::InvalidState { expected, actual: self.step.phase() }
    }

    /// An operation that is due at `due` and moves on to `next` without
    /// anything else: refused elsewhere, with the session unchanged.
    pub open spec fn advance(self, due: Step, next: Step) -> (Session, Result<(), MpcTlsError>) {
        if self.step == due {
            (self.at(next), Ok(()))
        } else {
            (self, Err(self.wrong_state(due.phase())))
        }
    }

    /// Completes the setup of the substrate, which opens the handshake.
    pub open spec fn setup(self) -> (Session, Result<(), MpcTlsError>) {
        self.advance(Step::Setup, Step::SetProtocolVersion)
    }

    /// Sets the protocol version, which must be TLS 1.2.
    pub open spec fn set_protocol_version(self, version: ProtocolVersion) -> (
        Session,
        Result<(), MpcTlsError>,
    ) {
        if self.step != Step::SetProtocolVersion {
            (self, Err(self.wrong_state(Phase::HandshakeSetup)))
        } else if version != ProtocolVersion::TLSv1_2 {
            (self.failed(), Err(MpcTlsError::InvalidConfig))
        } else {
            (self.at(Step::SetCipherSuite), Ok(()))
        }
    }

    /// Sets the cipher suite, which must be one with AES-128-GCM and SHA-256.
    pub open spec fn set_cipher_suite(self, suite: SupportedCipherSuite) -> (
        Session,
        Result<(), MpcTlsError>,
    ) {
        if self.step != Step::SetCipherSuite {
            (self, Err(self.wrong_state(Phase::HandshakeSetup)))
        } else if !suite.is_aes128_gcm_sha256() {
            (self.failed(), Err(MpcTlsError::InvalidConfig))
        } else {
            (Session { suite, ..self.at(Step::GetClientRandom) }, Ok(()))
        }
    }

    /// The cipher suite agreed.
    pub open spec fn get_suite(self) -> Result<SupportedCipherSuite, MpcTlsError> {
        if self.step.has_suite() {
            Ok(self.suite)
        } else {
            Err(self.wrong_state(Phase::KeyExchange))
        }
    }

    /// Setting a cipher mode changes nothing; only a failed session refuses
    /// it.
    pub open spec fn set_mode(self) -> Result<(), MpcTlsError> {
        if self.step == Step::Failed {
            Err(self.wrong_state(Phase::Active))
        } else {
            Ok(())
        }
    }

    /// The client random.
    pub open spec fn get_client_random(self) -> (Session, Result<Seq<u8>, MpcTlsError>) {
        if self.step == Step::GetClientRandom {
            (self.at(Step::GetClientKeyShare), Ok(self.client_random))
        } else {
            (self, Err(self.wrong_state(Phase::KeyExchange)))
        }
    }

    /// The client's key share, a point on P-256.
    pub open spec fn get_client_key_share(self) -> (Session, Result<Seq<u8>, MpcTlsError>) {
        if self.step == Step::GetClientKeyShare {
            (self.at(Step::SetServerRandom), Ok(self.client_key_share))
        } else {
            (self, Err(self.wrong_state(Phase::KeyExchange)))
        }
    }

    /// Sets the server random.
    pub open spec fn set_server_random(self, random: Seq<u8>) -> (
        Session,
        Result<(), MpcTlsError>,
    ) {
        if self.step == Step::SetServerRandom {
            (Session { server_random: random, ..self.at(Step::SetServerKeyShare) }, Ok(()))
        } else {
            (self, Err(self.wrong_state(Phase::KeyExchange)))
        }
    }

    /// Sets the server's key share, which closes the key exchange.
    pub open spec fn set_server_key_share(self) -> (Session, Result<(), MpcTlsError>) {
        self.advance(Step::SetServerKeyShare, Step::SetServerCertDetails)
    }

    /// The server's key must be the pinned one where one is pinned.
    pub open spec fn set_server_cert_details(self, spki: Seq<u8>) -> (
        Session,
        Result<(), MpcTlsError>,
    ) {
        if self.step != Step::SetServerCertDetails {
            (self, Err(self.wrong_state(Phase::DeriveMasterSecret)))
        } else {
            match self.config.server_public_key_policy {
                KeyPolicy::Pinned(pinned) if pinned != spki => (
                    self.failed(),
                    Err(MpcTlsError::InvalidConfig),
                ),
                _ => (self.at(Step::SetServerKxDetails), Ok(())),
            }
        }
    }

    /// Sets the server's signed key exchange parameters.
    pub open spec fn set_server_kx_details(self) -> (Session, Result<(), MpcTlsError>) {
        self.advance(Step::SetServerKxDetails, Step::SetHsHashClientKeyExchange)
    }

    /// Derives the master secret from the pre-master secret and `hash`, then
    /// the key block from the master secret and the two randoms.
    pub open spec fn set_hs_hash_client_key_exchange(self, hash: Seq<u8>) -> (
        Session,
        Result<(), MpcTlsError>,
    ) {
        if self.step == Step::SetHsHashClientKeyExchange {
            let master_secret = master_secret_bytes(self.pre_master_secret, hash);
            (
                Session {
                    master_secret,
                    keys: split_key_block(
                        key_block_bytes(master_secret, self.server_random, self.client_random),
                    ),
                    ..self.at(Step::GetClientFinishedVd)
                },
                Ok(()),
            )
        } else {
            (self, Err(self.wrong_state(Phase::DeriveMasterSecret)))
        }
    }

    /// The client's Finished verify data for the handshake hash `hash`.
    pub open spec fn get_client_finished_vd(self, hash: Seq<u8>) -> (
        Session,
        Result<Seq<u8>, MpcTlsError>,
    ) {
        if self.step == Step::GetClientFinishedVd {
            (
                self.at(Step::SetHsHashServerHello),
                Ok(client_finished_bytes(self.master_secret, hash)),
            )
        } else {
            (self, Err(self.wrong_state(Phase::ClientFinished)))
        }
    }

    /// Sets the handshake hash up to the server hello.
    pub open spec fn set_hs_hash_server_hello(self) -> (Session, Result<(), MpcTlsError>) {
        self.advance(Step::SetHsHashServerHello, Step::GetServerFinishedVd)
    }

    /// The server's Finished verify data for the handshake hash `hash`.
    pub open spec fn get_server_finished_vd(self, hash: Seq<u8>) -> (
        Session,
        Result<Seq<u8>, MpcTlsError>,
    ) {
        if self.step == Step::GetServerFinishedVd {
            (
                self.at(Step::PrepareEncryption),
                Ok(server_finished_bytes(self.master_secret, hash)),
            )
        } else {
            (self, Err(self.wrong_state(Phase::ServerFinished)))
        }
    }

    /// Makes the record layer ready, after which records flow.
    pub open spec fn prepare_encryption(self) -> (Session, Result<(), MpcTlsError>) {
        self.advance(
            Step::PrepareEncryption,
            if self.config.defer_decryption_from_start {
                Step::DeferredDecrypt
            } else {
                Step::Active
            },
        )
    }

    /// Why an outgoing record is refused although records flow, if it is: its
    /// number is not the next one, it is too long for a record, it would
    /// overrun the budget, or the numbers have run out.
    pub open spec fn encrypt_refusal(self, len: nat, seq: u64) -> Option<MpcTlsError> {
        if seq != self.seq_out {
            Some(MpcTlsError::Internal)
        } else if len > MAX_PLAINTEXT_LEN || self.sent_bytes + len > self.config.max_sent_bytes
            || seq
            == u64::MAX {
            Some(MpcTlsError::Capacity)
        } else {
            None
        }
    }

    /// Protects the outgoing record `msg` under the number `seq`.
    pub open spec fn encrypt(self, record: Record, seq: u64) -> (
        Session,
        Result<Record, MpcTlsError>,
    ) {
        if !self.step.is_open() {
            (self, Err(self.wrong_state(Phase::Active)))
        } else {
            match self.encrypt_refusal(record.payload.len(), seq) {
                Some(error) => (self.failed(), Err(error)),
                None => (
                    Session {
                        seq_out: (self.seq_out + 1) as u64,
                        sent_bytes: self.sent_bytes + record.payload.len(),
                        sent: self.sent.push(record),
                        ..self
                    },
                    Ok(protect(self.keys, seq, record)),
                ),
            }
        }
    }

    /// What taking in the protected `record` under number `seq` yields: the
    /// record in the clear, or the reason it is refused, in this order: its
    /// number is not the next one; it is too short to hold nonce and tag; it
    /// is too long, would overrun the budget, or the numbers have run out; it
    /// is not authentic.
    pub open spec fn accept(self, record: Record, seq: u64) -> Result<Record, MpcTlsError> {
        let len = plaintext_len(record.payload.len());
        if seq != self.seq_in {
            Err(MpcTlsError::Internal)
        } else if record.payload.len() < RECORD_OVERHEAD {
            Err(MpcTlsError::AeadTagMismatch)
        } else if len > MAX_PLAINTEXT_LEN || self.recv_bytes + len > self.config.max_recv_bytes
            || seq
            == u64::MAX {
            Err(MpcTlsError::Capacity)
        } else {
            match unprotect(self.keys, seq, record) {
                Some(plain) => Ok(plain),
                None => Err(MpcTlsError::AeadTagMismatch),
            }
        }
    }

    /// The session after the record `plain` has been accepted.
    pub open spec fn received(self, plain: Record) -> Session {
        Session {
            seq_in: (self.seq_in + 1) as u64,
            recv_bytes: self.recv_bytes + plain.payload.len(),
            received: self.received.push(plain),
            ..self
        }
    }

    /// Takes in the protected record `msg` under the number `seq`.
    pub open spec fn decrypt(self, record: Record, seq: u64) -> (
        Session,
        Result<Record, MpcTlsError>,
    ) {
        if self.step != Step::Active {
            (self, Err(self.wrong_state(Phase::Active)))
        } else {
            match self.accept(record, seq) {
                Err(error) => (self.failed(), Err(error)),
                Ok(plain) => (self.received(plain), Ok(plain)),
            }
        }
    }

    /// Puts a protected record into the buffer, for as long as the budget of bytes
    /// received covers everything buffered.
    pub open spec fn buffer_incoming(self, record: Record) -> (Session, Result<(), MpcTlsError>) {
        if !self.step.is_open() {
            (self, Err(self.wrong_state(Phase::Active)))
        } else if self.recv_bytes + pending_bytes(self.buffer) + plaintext_len(
            record.payload.len(),
        ) > self.config.max_recv_bytes {
            (self.failed(), Err(MpcTlsError::Capacity))
        } else {
            (Session { buffer: self.buffer.push(record), ..self }, Ok(()))
        }
    }

    /// Hands out the oldest buffered record. While decryption is deferred the
    /// records are held back.
    pub open spec fn next_incoming(self) -> (Session, Result<Option<Record>, MpcTlsError>) {
        if self.step == Step::Active {
            if self.buffer.len() == 0 {
                (self, Ok(None))
            } else {
                (Session { buffer: self.buffer.drop_first(), ..self }, Ok(Some(self.buffer[0])))
            }
        } else if self.step == Step::DeferredDecrypt {
            (self, Ok(None))
        } else {
            (self, Err(self.wrong_state(Phase::Active)))
        }
    }

    /// Number of records waiting in the buffer.
    pub open spec fn buffer_len(self) -> Result<nat, MpcTlsError> {
        if self.step == Step::Failed {
            Err(self.wrong_state(Phase::Active))
        } else {
            Ok(self.buffer.len())
        }
    }

    /// Work is ready when a buffered record can be handed out.
    pub open spec fn get_notify(self) -> Result<BackendNotify, MpcTlsError> {
        if self.step == Step::Failed {
            Err(self.wrong_state(Phase::Active))
        } else {
            Ok(BackendNotify { ready: self.step == Step::Active && self.buffer.len() > 0 })
        }
    }

    /// The server's end of stream closes a session, except while decryption
    /// is deferred: then it is noted, and the session waits for the commit.
    pub open spec fn server_closed(self) -> (Session, Result<(), MpcTlsError>) {
        if self.step == Step::Active || self.step == Step::Committed {
            (Session { server_closed: true, ..self.at(Step::Closed) }, Ok(()))
        } else if self.step == Step::DeferredDecrypt {
            (Session { server_closed: true, ..self }, Ok(()))
        } else {
            (self, Err(self.wrong_state(Phase::Active)))
        }
    }

    /// Defers decryption of any incoming messages.
    pub open spec fn defer_decryption(self) -> (Session, Result<(), MpcTlsError>) {
        self.advance(Step::Active, Step::DeferredDecrypt)
    }

    /// Decrypts the buffered records, oldest first, from record `from` on;
    /// the first one refused ends the session.
    #[verifier::opaque]
    pub open spec fn drain(self, from: nat) -> Result<Session, MpcTlsError>
        decreases self.buffer.len() - from,
    {
        if from >= self.buffer.len() {
            Ok(Session { buffer: Seq::<Record>::empty(), ..self })
        } else {
            match self.accept(self.buffer[from as int], self.seq_in) {
                Err(error) => Err(error),
                Ok(plain) => self.received(plain).drain(from + 1),
            }
        }
    }

    /// Commits to the transcript.
    pub open spec fn commit(self) -> (Session, Result<(), MpcTlsError>) {
        if !self.step.is_open() {
            (self, Err(self.wrong_state(Phase::Active)))
        } else {
            match self.drain(0) {
                Err(error) => (self.failed(), Err(error)),
                Ok(drained) => (drained.at(Step::Committed), Ok(())),
            }
        }
    }

    /// Closes the connection.
    pub open spec fn close_connection(self) -> (Session, Result<(), MpcTlsError>) {
        if self.step.is_open() || self.step == Step::Committed {
            (self.at(Step::Closed), Ok(()))
        } else {
            (self, Err(self.wrong_state(Phase::Active)))
        }
    }
}

} // verus!
