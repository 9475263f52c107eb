//! The follower: it takes the leader's commands in order and keeps its own
//! view of the session. It never sees plaintext, so its view holds the step,
//! the record numbers and the byte counts, and nothing of the content.

pub mod laws;

use crate::bytes::bytes_eq;
use crate::error::{MpcTlsError, Phase};
use crate::leader::state::{plaintext_len, KeyPolicy, Step};
use crate::leader::{MpcTlsCommonConfig, ServerPublicKeyPolicy};
use crate::msgs::{
    ContentType, DecryptMode, EncryptMode, OpaqueMessage, ProtocolVersion, PublicKey, Random,
    ServerCertDetails, ServerKxDetails, SupportedCipherSuite, MAX_PLAINTEXT_LEN, RECORD_OVERHEAD,
};
use vstd::prelude::*;

verus! {

/// Options of the follower.
#[derive(Debug, Clone)]
pub struct MpcTlsFollowerConfig {
    pub common: MpcTlsCommonConfig,
}

/// What the follower is told of an outgoing record: everything but its
/// content.
#[derive(Debug, Clone, Copy)]
pub struct EncryptMessage {
    pub typ: ContentType,
    pub version: ProtocolVersion,
    pub len: usize,
    pub seq: u64,
}

/// An incoming record to take in, with what the joint check of its tag made
/// known to both parties.
#[derive(Debug, Clone)]
pub struct DecryptMessage {
    pub msg: OpaqueMessage,
    pub seq: u64,
    pub authentic: bool,
}

/// A command of the leader: one per operation of the backend surface that
/// the follower has a part in, and those that steer the session.
#[derive(Debug, Clone)]
pub enum MpcTlsMessage {
    SetProtocolVersion(ProtocolVersion),
    SetCipherSuite(SupportedCipherSuite),
    GetSuite,
    SetEncrypt(EncryptMode),
    SetDecrypt(DecryptMode),
    GetClientRandom(Random),
    GetClientKeyShare,
    SetServerRandom(Random),
    SetServerKeyShare(PublicKey),
    SetServerCertDetails(ServerCertDetails),
    SetServerKxDetails(ServerKxDetails),
    SetHsHashClientKeyExchange(Vec<u8>),
    SetHsHashServerHello(Vec<u8>),
    GetServerFinishedVd(Vec<u8>),
    GetClientFinishedVd(Vec<u8>),
    /// Carries whether the leader defers decryption from the start.
    PrepareEncryption(bool),
    Encrypt(EncryptMessage),
    Decrypt(DecryptMessage),
    BufferIncoming(OpaqueMessage),
    NextIncoming,
    ServerClosed,
    DeferDecryption,
    CloseConnection,
    Commit,
    Finalize,
}

/// A command as far as the follower's view of the session depends on it.
pub enum Command {
    SetProtocolVersion(ProtocolVersion),
    SetCipherSuite(SupportedCipherSuite),
    GetSuite,
    SetMode,
    GetClientRandom,
    GetClientKeyShare,
    SetServerRandom,
    SetServerKeyShare,
    SetServerCertDetails(Seq<u8>),
    SetServerKxDetails,
    SetHsHashClientKeyExchange,
    SetHsHashServerHello,
    GetServerFinishedVd,
    GetClientFinishedVd,
    PrepareEncryption(bool),
    Encrypt(nat, u64),
    Decrypt(nat, u64, bool),
    BufferIncoming(nat),
    NextIncoming,
    ServerClosed,
    DeferDecryption,
    CloseConnection,
    Commit,
    Finalize,
}

impl View for MpcTlsMessage {
    type V = Command;

    open spec fn view(&self) -> Command {
        match self {
            MpcTlsMessage::SetProtocolVersion(version) => Command::SetProtocolVersion(*version),
            MpcTlsMessage::SetCipherSuite(suite) => Command::SetCipherSuite(*suite),
            MpcTlsMessage::GetSuite => Command::GetSuite,
            MpcTlsMessage::SetEncrypt(_) => Command::SetMode,
            MpcTlsMessage::SetDecrypt(_) => Command::SetMode,
            MpcTlsMessage::GetClientRandom(_) => Command::GetClientRandom,
            MpcTlsMessage::GetClientKeyShare => Command::GetClientKeyShare,
            MpcTlsMessage::SetServerRandom(_) => Command::SetServerRandom,
            MpcTlsMessage::SetServerKeyShare(_) => Command::SetServerKeyShare,
            MpcTlsMessage::SetServerCertDetails(details) => Command::SetServerCertDetails(
                details.spki@,
            ),
            MpcTlsMessage::SetServerKxDetails(_) => Command::SetServerKxDetails,
            MpcTlsMessage::SetHsHashClientKeyExchange(_) => Command::SetHsHashClientKeyExchange,
            MpcTlsMessage::SetHsHashServerHello(_) => Command::SetHsHashServerHello,
            MpcTlsMessage::GetServerFinishedVd(_) => Command::GetServerFinishedVd,
            MpcTlsMessage::GetClientFinishedVd(_) => Command::GetClientFinishedVd,
            MpcTlsMessage::PrepareEncryption(defer) => Command::PrepareEncryption(*defer),
            MpcTlsMessage::Encrypt(message) => Command::Encrypt(message.len as nat, message.seq),
            MpcTlsMessage::Decrypt(message) => Command::Decrypt(
                message.msg.payload@.len(),
                message.seq,
                message.authentic,
            ),
            MpcTlsMessage::BufferIncoming(msg) => Command::BufferIncoming(msg.payload@.len()),
            MpcTlsMessage::NextIncoming => Command::NextIncoming,
            MpcTlsMessage::ServerClosed => Command::ServerClosed,
            MpcTlsMessage::DeferDecryption => Command::DeferDecryption,
            MpcTlsMessage::CloseConnection => Command::CloseConnection,
            MpcTlsMessage::Commit => Command::Commit,
            MpcTlsMessage::Finalize => Command::Finalize,
        }
    }
}

/// The sum of the plaintext lengths that belong to a list of payload
/// lengths.
pub open spec fn pending_lengths(buffer: Seq<nat>) -> nat
    decreases buffer.len(),
{
    if buffer.len() == 0 {
        0
    } else {
        pending_lengths(buffer.drop_last()) + plaintext_len(buffer.last())
    }
}

/// The follower's view of a session.
pub struct Mirror {
    pub max_sent_bytes: nat,
    pub max_recv_bytes: nat,
    pub server_public_key_policy: KeyPolicy,
    pub step: Step,
    pub seq_out: u64,
    pub seq_in: u64,
    pub sent_bytes: nat,
    pub recv_bytes: nat,
    /// Payload lengths of the records in the leader's buffer, oldest first.
    pub buffer: Seq<nat>,
    pub server_closed: bool,
}

impl Mirror {
    /// The view with its step replaced.
    pub open spec fn at(self, step: Step) -> Mirror {
        Mirror { step, ..self }
    }

    /// The view after a fatal error.
    pub open spec fn failed(self) -> Mirror {
        self.at(Step::Failed)
    }

    /// The refusal of a command that belongs to `expected`.
    pub open spec fn wrong_state(self, expected: Phase) -> MpcTlsError {
        MpcTlsError::InvalidState { expected, actual: self.step.phase() }
    }

    /// A command that is due at `due` and moves on to `next` without anything
    /// else.
    pub open spec fn advance(self, due: Step, next: Step) -> (Mirror, Result<(), MpcTlsError>) {
        if self.step == due {
            (self.at(next), Ok(()))
        } else {
            (self, Err(self.wrong_state(due.phase())))
        }
    }

    /// Completes the setup of the substrate, which opens the handshake.
    pub open spec fn setup(self) -> (Mirror, Result<(), MpcTlsError>) {
        self.advance(Step::Setup, Step::SetProtocolVersion)
    }

    /// What a command does to the follower's view, and the status it is
    /// answered with.
    pub open spec fn handle(self, command: Command) -> (Mirror, Result<(), MpcTlsError>) {
        match command {
            Command::SetProtocolVersion(version) => if self.step != Step::SetProtocolVersion {
                (self, Err(self.wrong_state(Phase::HandshakeSetup)))
            } else if version != ProtocolVersion::TLSv1_2 {
                (self.failed(), Err(MpcTlsError::InvalidConfig))
            } else {
                (self.at(Step::SetCipherSuite), Ok(()))
            },
            Command::SetCipherSuite(suite) => if self.step != Step::SetCipherSuite {
                (self, Err(self.wrong_state(Phase::HandshakeSetup)))
            } else if !suite.is_aes128_gcm_sha256() {
                (self.failed(), Err(MpcTlsError::InvalidConfig))
            } else {
                (self.at(Step::GetClientRandom), Ok(()))
            },
            Command::GetSuite => if self.step.has_suite() {
                (self, Ok(()))
            } else {
                (self, Err(self.wrong_state(Phase::KeyExchange)))
            },
            Command::SetMode => if self.step == Step::Failed {
                (self, Err(self.wrong_state(Phase::Active)))
            } else {
                (self, Ok(()))
            },
            Command::GetClientRandom => self.advance(
                Step::GetClientRandom,
                Step::GetClientKeyShare,
            ),
            Command::GetClientKeyShare => self.advance(
                Step::GetClientKeyShare,
                Step::SetServerRandom,
            ),
            Command::SetServerRandom => self.advance(
                Step::SetServerRandom,
                Step::SetServerKeyShare,
            ),
            Command::SetServerKeyShare => self.advance(
                Step::SetServerKeyShare,
                Step::SetServerCertDetails,
            ),
            Command::SetServerCertDetails(spki) => if self.step != Step::SetServerCertDetails {
                (self, Err(self.wrong_state(Phase::DeriveMasterSecret)))
            } else {
                match self.server_public_key_policy {
                    KeyPolicy::Pinned(pinned) if pinned != spki => (
                        self.failed(),
                        Err(MpcTlsError::InvalidConfig),
                    ),
                    _ => (self.at(Step::SetServerKxDetails), Ok(())),
                }
            },
            Command::SetServerKxDetails => self.advance(
                Step::SetServerKxDetails,
                Step::SetHsHashClientKeyExchange,
            ),
            Command::SetHsHashClientKeyExchange => self.advance(
                Step::SetHsHashClientKeyExchange,
                Step::GetClientFinishedVd,
            ),
            Command::GetClientFinishedVd => self.advance(
                Step::GetClientFinishedVd,
                Step::SetHsHashServerHello,
            ),
            Command::SetHsHashServerHello => self.advance(
                Step::SetHsHashServerHello,
                Step::GetServerFinishedVd,
            ),
            Command::GetServerFinishedVd => self.advance(
                Step::GetServerFinishedVd,
                Step::PrepareEncryption,
            ),
            Command::PrepareEncryption(defer) => self.advance(
                Step::PrepareEncryption,
                if defer {
                    Step::DeferredDecrypt
                } else {
                    Step::Active
                },
            ),
            Command::Encrypt(len, seq) => if !self.step.is_open() {
                (self, Err(self.wrong_state(Phase::Active)))
            } else if seq != self.seq_out {
                (self.failed(), Err(MpcTlsError::Internal))
            } else if len > MAX_PLAINTEXT_LEN || self.sent_bytes + len > self.max_sent_bytes || seq
                == u64::MAX {
                (self.failed(), Err(MpcTlsError::Capacity))
            } else {
                (
                    Mirror {
                        seq_out: (self.seq_out + 1) as u64,
                        sent_bytes: self.sent_bytes + len,
                        ..self
                    },
                    Ok(()),
                )
            },
            Command::Decrypt(payload_len, seq, authentic) => {
                let len = plaintext_len(payload_len);
                if self.step != Step::Active {
                    (self, Err(self.wrong_state(Phase::Active)))
                } else if seq != self.seq_in {
                    (self.failed(), Err(MpcTlsError::Internal))
                } else if payload_len < RECORD_OVERHEAD {
                    (self.failed(), Err(MpcTlsError::AeadTagMismatch))
                } else if len > MAX_PLAINTEXT_LEN || self.recv_bytes + len > self.max_recv_bytes
                    || seq == u64::MAX {
                    (self.failed(), Err(MpcTlsError::Capacity))
                } else if !authentic {
                    (self.failed(), Err(MpcTlsError::AeadTagMismatch))
                } else {
                    (
                        Mirror {
                            seq_in: (self.seq_in + 1) as u64,
                            recv_bytes: self.recv_bytes + len,
                            ..self
                        },
                        Ok(()),
                    )
                }
            },
            Command::BufferIncoming(payload_len) => if !self.step.is_open() {
                (self, Err(self.wrong_state(Phase::Active)))
            } else if self.recv_bytes + pending_lengths(self.buffer) + plaintext_len(payload_len)
                > self.max_recv_bytes {
                (self.failed(), Err(MpcTlsError::Capacity))
            } else {
                (Mirror { buffer: self.buffer.push(payload_len), ..self }, Ok(()))
            },
            Command::NextIncoming => if self.step == Step::Active {
                if self.buffer.len() == 0 {
                    (self, Ok(()))
                } else {
                    (Mirror { buffer: self.buffer.drop_first(), ..self }, Ok(()))
                }
            } else if self.step == Step::DeferredDecrypt {
                (self, Ok(()))
            } else {
                (self, Err(self.wrong_state(Phase::Active)))
            },
            Command::ServerClosed => if self.step == Step::Active || self.step == Step::Committed {
                (Mirror { server_closed: true, ..self.at(Step::Closed) }, Ok(()))
            } else if self.step == Step::DeferredDecrypt {
                (Mirror { server_closed: true, ..self }, Ok(()))
            } else {
                (self, Err(self.wrong_state(Phase::Active)))
            },
            Command::DeferDecryption => self.advance(Step::Active, Step::DeferredDecrypt),
            Command::CloseConnection => if self.step.is_open() || self.step == Step::Committed {
                (self.at(Step::Closed), Ok(()))
            } else {
                (self, Err(self.wrong_state(Phase::Active)))
            },
            // The follower gives up its share of the server write key; the
            // records still buffered are the leader's to open.
            Command::Commit => if self.step.is_open() {
                (Mirror { buffer: Seq::<nat>::empty(), ..self.at(Step::Committed) }, Ok(()))
            } else {
                (self, Err(self.wrong_state(Phase::Active)))
            },
            Command::Finalize => if self.step == Step::Closed {
                (self, Ok(()))
            } else {
                (self, Err(self.wrong_state(Phase::Closed)))
            },
        }
    }
}

/// The follower of a session.
#[derive(Debug)]
pub struct MpcTlsFollower {
    config: MpcTlsFollowerConfig,
    step: Step,
    seq_out: u64,
    seq_in: u64,
    sent_bytes: u64,
    recv_bytes: u64,
    pending: u64,
    buffer: Vec<usize>,
    server_closed: bool,
}

/// A list of lengths as a mathematical value.
pub open spec fn lengths(buffer: Seq<usize>) -> Seq<nat> {
    Seq::new(buffer.len(), |i: int| buffer[i] as nat)
}

impl View for MpcTlsFollower {
    type V = Mirror;

    closed spec fn view(&self) -> Mirror {
        Mirror {
            max_sent_bytes: self.config.common.max_sent_bytes as nat,
            max_recv_bytes: self.config.common.max_recv_bytes as nat,
            server_public_key_policy: match self.config.common.server_public_key_policy {
                ServerPublicKeyPolicy::Any => KeyPolicy::Any,
                ServerPublicKeyPolicy::Pinned(spki) => KeyPolicy::Pinned(spki@),
            },
            step: self.step,
            seq_out: self.seq_out,
            seq_in: self.seq_in,
            sent_bytes: self.sent_bytes as nat,
            recv_bytes: self.recv_bytes as nat,
            buffer: lengths(self.buffer@),
            server_closed: self.server_closed,
        }
    }
}

/// Adding a length to a list adds the plaintext length that belongs to it.
pub proof fn lemma_pending_lengths_push(buffer: Seq<nat>, len: nat)
    ensures
        pending_lengths(buffer.push(len)) == pending_lengths(buffer) + plaintext_len(len),
{
    assert(buffer.push(len).drop_last() =~= buffer);
}

/// Taking the first length off a list takes off the plaintext length that
/// belongs to it.
pub proof fn lemma_pending_lengths_drop_first(buffer: Seq<nat>)
    requires
        buffer.len() > 0,
    ensures
        pending_lengths(buffer) == pending_lengths(buffer.drop_first()) + plaintext_len(buffer[0]),
    decreases buffer.len(),
{
    if buffer.len() == 1 {
        assert(buffer.drop_last() =~= Seq::<nat>::empty());
        assert(buffer.drop_first() =~= Seq::<nat>::empty());
    } else {
        lemma_pending_lengths_drop_first(buffer.drop_last());
        assert(buffer.drop_first().drop_last() =~= buffer.drop_last().drop_first());
    }
}

impl MpcTlsFollower {
    /// The byte counts are within their budgets, and the count of pending
    /// bytes is that of the buffer.
    pub closed spec fn wf(&self) -> bool {
        &&& self.sent_bytes <= self.config.common.max_sent_bytes
        &&& self.recv_bytes <= self.config.common.max_recv_bytes
        &&& self.pending <= self.config.common.max_recv_bytes
        &&& self.pending == pending_lengths(lengths(self.buffer@))
    }

    /// Creates the follower of a session with the given options.
    pub fn new(config: MpcTlsFollowerConfig) -> (follower: MpcTlsFollower)
        ensures
            follower.wf(),
            follower@.step == Step::Setup,
            follower@.seq_out == 0,
            follower@.seq_in == 0,
            follower@.sent_bytes == 0,
            follower@.recv_bytes == 0,
            follower@.buffer.len() == 0,
            !follower@.server_closed,
            follower@.max_sent_bytes == config.common.max_sent_bytes,
            follower@.max_recv_bytes == config.common.max_recv_bytes,
            follower@.server_public_key_policy == match config.common.server_public_key_policy {
                ServerPublicKeyPolicy::Any => KeyPolicy::Any,
                ServerPublicKeyPolicy::Pinned(spki) => KeyPolicy::Pinned(spki@),
            },
    {
        MpcTlsFollower {
            config,
            step: Step::Setup,
            seq_out: 0,
            seq_in: 0,
            sent_bytes: 0,
            recv_bytes: 0,
            pending: 0,
            buffer: Vec::new(),
            server_closed: false,
        }
    }

    /// Where the follower's view of the session stands.
    pub fn step(&self) -> (step: Step)
        ensures
            step == self@.step,
    {
        self.step
    }

    /// The number the next outgoing record must carry.
    pub fn seq_out(&self) -> (seq: u64)
        ensures
            seq == self@.seq_out,
    {
        self.seq_out
    }

    /// The number the next incoming record must carry.
    pub fn seq_in(&self) -> (seq: u64)
        ensures
            seq == self@.seq_in,
    {
        self.seq_in
    }

    fn wrong_state(&self, expected: Phase) -> (error: MpcTlsError)
        ensures
            error == self@.wrong_state(expected),
    {
        MpcTlsError::InvalidState { expected, actual: self.step.get_phase() }
    }

    fn advance(&mut self, due: Step, next: Step) -> (status: Result<(), MpcTlsError>)
        requires
            old(self).wf(),
        ensures
            final(self).wf(),
            (final(self)@, status) == old(self)@.advance(due, next),
    {
        if self.step != due {
            return Err(self.wrong_state(due.get_phase()));
        }
        self.step = next;
        Ok(())
    }

    fn fail(&mut self, error: MpcTlsError) -> (status: Result<(), MpcTlsError>)
        requires
            old(self).wf(),
        ensures
            final(self).wf(),
            final(self)@ == old(self)@.failed(),
            status == Err::<(), MpcTlsError>(error),
    {
        self.step = Step::Failed;
        Err(error)
    }

    /// Completes the setup of the substrate.
    pub fn setup(&mut self) -> (status: Result<(), MpcTlsError>)
        requires
            old(self).wf(),
        ensures
            final(self).wf(),
            (final(self)@, status) == old(self)@.setup(),
    {
        self.advance(Step::Setup, Step::SetProtocolVersion)
    }

    /// Takes one command of the leader.
    pub fn handle(&mut self, msg: MpcTlsMessage) -> (status: Result<(), MpcTlsError>)
        requires
            old(self).wf(),
        ensures
            final(self).wf(),
            (final(self)@, status) == old(self)@.handle(msg@),
    {
        match msg {
            MpcTlsMessage::SetProtocolVersion(version) => {
                if self.step != Step::SetProtocolVersion {
                    return Err(self.wrong_state(Phase::HandshakeSetup));
                }
                if version != ProtocolVersion::TLSv1_2 {
                    return self.fail(MpcTlsError::InvalidConfig);
                }
                self.step = Step::SetCipherSuite;
                Ok(())
            },
            MpcTlsMessage::SetCipherSuite(suite) => {
                if self.step != Step::SetCipherSuite {
                    return Err(self.wrong_state(Phase::HandshakeSetup));
                }
                if !suite.supported() {
                    return self.fail(MpcTlsError::InvalidConfig);
                }
                self.step = Step::GetClientRandom;
                Ok(())
            },
            MpcTlsMessage::GetSuite => match self.step {
                Step::Setup | Step::SetProtocolVersion | Step::SetCipherSuite | Step::Failed => Err(
                    self.wrong_state(Phase::KeyExchange),
                ),
                _ => Ok(()),
            },
            MpcTlsMessage::SetEncrypt(_) | MpcTlsMessage::SetDecrypt(_) => {
                if self.step == Step::Failed {
                    return Err(self.wrong_state(Phase::Active));
                }
                Ok(())
            },
            MpcTlsMessage::GetClientRandom(_) => self.advance(
                Step::GetClientRandom,
                Step::GetClientKeyShare,
            ),
            MpcTlsMessage::GetClientKeyShare => self.advance(
                Step::GetClientKeyShare,
                Step::SetServerRandom,
            ),
            MpcTlsMessage::SetServerRandom(_) => self.advance(
                Step::SetServerRandom,
                Step::SetServerKeyShare,
            ),
            MpcTlsMessage::SetServerKeyShare(_) => self.advance(
                Step::SetServerKeyShare,
                Step::SetServerCertDetails,
            ),
            MpcTlsMessage::SetServerCertDetails(details) => {
                if self.step != Step::SetServerCertDetails {
                    return Err(self.wrong_state(Phase::DeriveMasterSecret));
                }
                let accepted = match &self.config.common.server_public_key_policy {
                    ServerPublicKeyPolicy::Any => true,
                    ServerPublicKeyPolicy::Pinned(pinned) => bytes_eq(
                        pinned.as_slice(),
                        details.spki.as_slice(),
                    ),
                };
                if !accepted {
                    return self.fail(MpcTlsError::InvalidConfig);
                }
                self.step = Step::SetServerKxDetails;
                Ok(())
            },
            MpcTlsMessage::SetServerKxDetails(_) => self.advance(
                Step::SetServerKxDetails,
                Step::SetHsHashClientKeyExchange,
            ),
            MpcTlsMessage::SetHsHashClientKeyExchange(_) => self.advance(
                Step::SetHsHashClientKeyExchange,
                Step::GetClientFinishedVd,
            ),
            MpcTlsMessage::GetClientFinishedVd(_) => self.advance(
                Step::GetClientFinishedVd,
                Step::SetHsHashServerHello,
            ),
            MpcTlsMessage::SetHsHashServerHello(_) => self.advance(
                Step::SetHsHashServerHello,
                Step::GetServerFinishedVd,
            ),
            MpcTlsMessage::GetServerFinishedVd(_) => self.advance(
                Step::GetServerFinishedVd,
                Step::PrepareEncryption,
            ),
            MpcTlsMessage::PrepareEncryption(defer) => self.advance(
                Step::PrepareEncryption,
                if defer {
                    Step::DeferredDecrypt
                } else {
                    Step::Active
                },
            ),
            MpcTlsMessage::Encrypt(message) => {
                match self.step {
                    Step::Active | Step::DeferredDecrypt => {},
                    _ => {
                        return Err(self.wrong_state(Phase::Active));
                    },
                }
                if message.seq != self.seq_out {
                    return self.fail(MpcTlsError::Internal);
                }
                let room = self.config.common.max_sent_bytes as u64 - self.sent_bytes;
                if message.len > MAX_PLAINTEXT_LEN || message.len as u64 > room || message.seq
                    == u64::MAX {
                    return self.fail(MpcTlsError::Capacity);
                }
                self.seq_out = self.seq_out + 1;
                self.sent_bytes = self.sent_bytes + message.len as u64;
                Ok(())
            },
            MpcTlsMessage::Decrypt(message) => {
                if self.step != Step::Active {
                    return Err(self.wrong_state(Phase::Active));
                }
                if message.seq != self.seq_in {
                    return self.fail(MpcTlsError::Internal);
                }
                let len = message.msg.payload.len();
                if len < RECORD_OVERHEAD {
                    return self.fail(MpcTlsError::AeadTagMismatch);
                }
                let carried = len - RECORD_OVERHEAD;
                let room = self.config.common.max_recv_bytes as u64 - self.recv_bytes;
                if carried > MAX_PLAINTEXT_LEN || carried as u64 > room || message.seq == u64::MAX {
                    return self.fail(MpcTlsError::Capacity);
                }
                if !message.authentic {
                    return self.fail(MpcTlsError::AeadTagMismatch);
                }
                self.seq_in = self.seq_in + 1;
                self.recv_bytes = self.recv_bytes + carried as u64;
                Ok(())
            },
            MpcTlsMessage::BufferIncoming(msg) => {
                match self.step {
                    Step::Active | Step::DeferredDecrypt => {},
                    _ => {
                        return Err(self.wrong_state(Phase::Active));
                    },
                }
                let len = msg.payload.len();
                let carried: usize = if len >= RECORD_OVERHEAD {
                    len - RECORD_OVERHEAD
                } else {
                    0
                };
                let room: u64 = self.config.common.max_recv_bytes as u64;
                if carried as u64 > room || self.recv_bytes + self.pending > room - carried as u64 {
                    return self.fail(MpcTlsError::Capacity);
                }
                proof {
                    lemma_pending_lengths_push(lengths(self.buffer@), len as nat);
                    assert(lengths(self.buffer@.push(len)) =~= lengths(self.buffer@).push(
                        len as nat,
                    ));
                }
                self.pending = self.pending + carried as u64;
                self.buffer.push(len);
                Ok(())
            },
            MpcTlsMessage::NextIncoming => {
                match self.step {
                    Step::Active => {},
                    Step::DeferredDecrypt => {
                        return Ok(());
                    },
                    _ => {
                        return Err(self.wrong_state(Phase::Active));
                    },
                }
                if self.buffer.len() == 0 {
                    return Ok(());
                }
                proof {
                    lemma_pending_lengths_drop_first(lengths(self.buffer@));
                    assert(lengths(self.buffer@.remove(0)) =~= lengths(self.buffer@).drop_first());
                }
                let len = self.buffer.remove(0);
                let carried: usize = if len >= RECORD_OVERHEAD {
                    len - RECORD_OVERHEAD
                } else {
                    0
                };
                self.pending = self.pending - carried as u64;
                Ok(())
            },
            MpcTlsMessage::ServerClosed => match self.step {
                Step::Active | Step::Committed => {
                    self.server_closed = true;
                    self.step = Step::Closed;
                    Ok(())
                },
                Step::DeferredDecrypt => {
                    self.server_closed = true;
                    Ok(())
                },
                _ => Err(self.wrong_state(Phase::Active)),
            },
            MpcTlsMessage::DeferDecryption => self.advance(Step::Active, Step::DeferredDecrypt),
            MpcTlsMessage::CloseConnection => match self.step {
                Step::Active | Step::DeferredDecrypt | Step::Committed => {
                    self.step = Step::Closed;
                    Ok(())
                },
                _ => Err(self.wrong_state(Phase::Active)),
            },
            MpcTlsMessage::Commit => {
                match self.step {
                    Step::Active | Step::DeferredDecrypt => {},
                    _ => {
                        return Err(self.wrong_state(Phase::Active));
                    },
                }
                proof {
                    assert(lengths(Seq::<usize>::empty()) =~= Seq::<nat>::empty());
                }
                self.buffer.clear();
                self.pending = 0;
                self.step = Step::Committed;
                Ok(())
            },
            MpcTlsMessage::Finalize => {
                if self.step != Step::Closed {
                    return Err(self.wrong_state(Phase::Closed));
                }
                Ok(())
            },
        }
    }
}

} // verus!
