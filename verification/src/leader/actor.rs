//! The leader as an actor: messages are dispatched to its handlers one at a
//! time, and a controller offers the backend surface on top of that.

use crate::error::{BackendError, IoError, MpcTlsError, Phase};
use crate::leader::msg::{
    BackendMsgBufferIncoming, BackendMsgBufferLen, BackendMsgDecrypt, BackendMsgEncrypt,
    BackendMsgGetClientFinishedVd, BackendMsgGetClientKeyShare, BackendMsgGetClientRandom,
    BackendMsgGetNotify, BackendMsgGetServerFinishedVd, BackendMsgGetSuite, BackendMsgNextIncoming,
    BackendMsgPrepareEncryption, BackendMsgServerClosed, BackendMsgSetCipherSuite,
    BackendMsgSetDecrypt, BackendMsgSetEncrypt, BackendMsgSetHsHashClientKeyExchange,
    BackendMsgSetHsHashServerHello, BackendMsgSetProtocolVersion, BackendMsgSetServerCertDetails,
    BackendMsgSetServerKeyShare, BackendMsgSetServerKxDetails, BackendMsgSetServerRandom,
    CloseConnection, Commit, DeferDecryption, MpcTlsLeaderMsg, MpcTlsLeaderMsgReturn, Outcome,
};
use crate::leader::state::{Session, Step};
use crate::leader::{plain_records, MpcTlsData, MpcTlsLeader};
use crate::msgs::{
    BackendNotify, DecryptMode, EncryptMode, OpaqueMessage, PlainMessage, ProtocolVersion,
    PublicKey, Random, Record, ServerCertDetails, ServerKxDetails, SupportedCipherSuite,
};
use vstd::prelude::*;

verus! {

/// What an actor's handlers can tell the loop that runs it.
#[derive(Debug, Clone, Copy, PartialEq, Eq, Structural)]
pub struct Context {
    pub stopped: bool,
}

impl MpcTlsLeaderMsg {
    /// Routes the message to the handler of its operation and wraps the
    /// handler's answer under the same name. A connection closed with success
    /// stops the actor.
    pub fn dispatch(self, actor: &mut MpcTlsLeader, ctx: &mut Context) -> (ret:
        MpcTlsLeaderMsgReturn)
        requires
            old(actor).wf(),
        ensures
            final(actor).wf(),
            ret.operation() == self.operation(),
            (final(actor)@, ret.outcome()) == self.apply(old(actor)@),
            final(ctx).stopped == (old(ctx).stopped || (self is CloseConnection && ret.outcome()
                == Outcome::Unit(Ok(())))),
    {
        match self {
            MpcTlsLeaderMsg::BackendMsgSetProtocolVersion(msg) => {
                let value = actor.set_protocol_version(msg.version);
                MpcTlsLeaderMsgReturn::BackendMsgSetProtocolVersion(value)
            },
            MpcTlsLeaderMsg::BackendMsgSetCipherSuite(msg) => {
                let value = actor.set_cipher_suite(msg.suite);
                MpcTlsLeaderMsgReturn::BackendMsgSetCipherSuite(value)
            },
            MpcTlsLeaderMsg::BackendMsgGetSuite(_msg) => {
                let value = actor.get_suite();
                MpcTlsLeaderMsgReturn::BackendMsgGetSuite(value)
            },
            MpcTlsLeaderMsg::BackendMsgSetEncrypt(msg) => {
                let value = actor.set_encrypt(msg.mode);
                MpcTlsLeaderMsgReturn::BackendMsgSetEncrypt(value)
            },
            MpcTlsLeaderMsg::BackendMsgSetDecrypt(msg) => {
                let value = actor.set_decrypt(msg.mode);
                MpcTlsLeaderMsgReturn::BackendMsgSetDecrypt(value)
            },
            MpcTlsLeaderMsg::BackendMsgGetClientRandom(_msg) => {
                let value = actor.get_client_random();
                MpcTlsLeaderMsgReturn::BackendMsgGetClientRandom(value)
            },
            MpcTlsLeaderMsg::BackendMsgGetClientKeyShare(_msg) => {
                let value = actor.get_client_key_share();
                MpcTlsLeaderMsgReturn::BackendMsgGetClientKeyShare(value)
            },
            MpcTlsLeaderMsg::BackendMsgSetServerRandom(msg) => {
                let value = actor.set_server_random(msg.random);
                MpcTlsLeaderMsgReturn::BackendMsgSetServerRandom(value)
            },
            MpcTlsLeaderMsg::BackendMsgSetServerKeyShare(msg) => {
                let value = actor.set_server_key_share(msg.key);
                MpcTlsLeaderMsgReturn::BackendMsgSetServerKeyShare(value)
            },
            MpcTlsLeaderMsg::BackendMsgSetServerCertDetails(msg) => {
                let value = actor.set_server_cert_details(msg.cert_details);
                MpcTlsLeaderMsgReturn::BackendMsgSetServerCertDetails(value)
            },
            MpcTlsLeaderMsg::BackendMsgSetServerKxDetails(msg) => {
                let value = actor.set_server_kx_details(msg.kx_details);
                MpcTlsLeaderMsgReturn::BackendMsgSetServerKxDetails(value)
            },
            MpcTlsLeaderMsg::BackendMsgSetHsHashClientKeyExchange(msg) => {
                let value = actor.set_hs_hash_client_key_exchange(msg.hash);
                MpcTlsLeaderMsgReturn::BackendMsgSetHsHashClientKeyExchange(value)
            },
            MpcTlsLeaderMsg::BackendMsgSetHsHashServerHello(msg) => {
                let value = actor.set_hs_hash_server_hello(msg.hash);
                MpcTlsLeaderMsgReturn::BackendMsgSetHsHashServerHello(value)
            },
            MpcTlsLeaderMsg::BackendMsgGetServerFinishedVd(msg) => {
                let value = actor.get_server_finished_vd(msg.hash);
                MpcTlsLeaderMsgReturn::BackendMsgGetServerFinishedVd(value)
            },
            MpcTlsLeaderMsg::BackendMsgGetClientFinishedVd(msg) => {
                let value = actor.get_client_finished_vd(msg.hash);
                MpcTlsLeaderMsgReturn::BackendMsgGetClientFinishedVd(value)
            },
            MpcTlsLeaderMsg::BackendMsgPrepareEncryption(_msg) => {
                let value = actor.prepare_encryption();
                MpcTlsLeaderMsgReturn::BackendMsgPrepareEncryption(value)
            },
            MpcTlsLeaderMsg::BackendMsgEncrypt(msg) => {
                let value = actor.encrypt(msg.msg, msg.seq);
                MpcTlsLeaderMsgReturn::BackendMsgEncrypt(value)
            },
            MpcTlsLeaderMsg::BackendMsgDecrypt(msg) => {
                let value = actor.decrypt(msg.msg, msg.seq);
                MpcTlsLeaderMsgReturn::BackendMsgDecrypt(value)
            },
            MpcTlsLeaderMsg::BackendMsgNextIncoming(_msg) => {
                let value = actor.next_incoming();
                MpcTlsLeaderMsgReturn::BackendMsgNextIncoming(value)
            },
            MpcTlsLeaderMsg::BackendMsgBufferIncoming(msg) => {
                let value = actor.buffer_incoming(msg.msg);
                MpcTlsLeaderMsgReturn::BackendMsgBufferIncoming(value)
            },
            MpcTlsLeaderMsg::BackendMsgGetNotify(_msg) => {
                let value = actor.get_notify();
                MpcTlsLeaderMsgReturn::BackendMsgGetNotify(value)
            },
            MpcTlsLeaderMsg::BackendMsgBufferLen(_msg) => {
                let value = actor.buffer_len();
                MpcTlsLeaderMsgReturn::BackendMsgBufferLen(value)
            },
            MpcTlsLeaderMsg::BackendMsgServerClosed(_msg) => {
                let value = actor.server_closed();
                MpcTlsLeaderMsgReturn::BackendMsgServerClosed(value)
            },
            MpcTlsLeaderMsg::DeferDecryption(_msg) => {
                let value = actor.defer_decryption();
                MpcTlsLeaderMsgReturn::DeferDecryption(value)
            },
            MpcTlsLeaderMsg::CloseConnection(_msg) => {
                let value = actor.close_connection();
                if value.is_ok() {
                    ctx.stopped = true;
                }
                MpcTlsLeaderMsgReturn::CloseConnection(value)
            },
            MpcTlsLeaderMsg::Commit(_msg) => {
                let value = actor.commit();
                MpcTlsLeaderMsgReturn::Commit(value)
            },
        }
    }
}

/// The address of a running leader: where its messages go. Here that is the
/// actor itself with its context, since handling a message is all that
/// sending one leads to.
#[derive(Debug)]
pub struct Address {
    actor: MpcTlsLeader,
    ctx: Context,
}

/// The handle a TLS client holds: the backend surface, served by sending one
/// message per operation and passing the reply on.
#[derive(Debug)]
pub struct MpcTlsLeaderCtrl {
    address: Address,
}

impl Address {
    /// The session of the leader behind the address.
    pub closed spec fn session(&self) -> Session {
        self.actor@
    }

    /// Whether the leader has stopped taking messages.
    pub closed spec fn is_stopped(&self) -> bool {
        self.ctx.stopped
    }

    /// The leader behind the address is sound.
    pub closed spec fn wf(&self) -> bool {
        self.actor.wf()
    }
}

impl MpcTlsLeader {
    /// Runs the leader actor: returns the control handle through which it
    /// takes its messages from now on.
    pub fn run(self) -> (ctrl: MpcTlsLeaderCtrl)
        requires
            self.wf(),
        ensures
            ctrl.wf(),
            ctrl.session() == self@,
            !ctrl.is_stopped(),
    {
        MpcTlsLeaderCtrl::new(Address { actor: self, ctx: Context { stopped: false } })
    }
}

/// A reply with its error, if it has one, as the text that stands for it.
pub open spec fn text<T>(reply: Result<T, MpcTlsError>) -> Result<T, Seq<char>> {
    match reply {
        Ok(value) => Ok(value),
        Err(error) => Err(error.message()),
    }
}

/// A reply with its error, if it has one, as the text it carries.
pub open spec fn cause<T>(reply: Result<T, BackendError>) -> Result<T, Seq<char>> {
    match reply {
        Ok(value) => Ok(value),
        Err(error) => Err(error.cause()),
    }
}

/// The error a message meets when the leader has stopped.
pub open spec fn closed() -> MpcTlsError {
    MpcTlsError::Io { cause: IoError::Closed }
}

impl MpcTlsLeaderCtrl {
    /// The session of the leader behind the handle.
    pub closed spec fn session(&self) -> Session {
        self.address.session()
    }

    /// Whether the leader has stopped taking messages.
    pub closed spec fn is_stopped(&self) -> bool {
        self.address.is_stopped()
    }

    /// The leader behind the handle is sound.
    pub closed spec fn wf(&self) -> bool {
        self.address.wf()
    }

    /// What sending does with the step an operation would take: a stopped
    /// leader takes no step and answers that it is closed.
    pub open spec fn sent<T>(&self, step: (Session, Result<T, MpcTlsError>)) -> (
        Session,
        Result<T, MpcTlsError>,
    ) {
        if self.is_stopped() {
            (self.session(), Err(closed()))
        } else {
            step
        }
    }

    /// The session after an operation has been sent for.
    pub open spec fn after<T>(&self, step: (Session, Result<T, MpcTlsError>)) -> Session {
        self.sent(step).0
    }

    /// What a TLS client is told of an operation it has sent for.
    pub open spec fn told<T>(&self, step: (Session, Result<T, MpcTlsError>)) -> Result<
        T,
        Seq<char>,
    > {
        text(self.sent(step).1)
    }

    /// Creates a new control for the leader at `address`.
    pub fn new(address: Address) -> (ctrl: MpcTlsLeaderCtrl)
        ensures
            ctrl.wf() == address.wf(),
            ctrl.session() == address.session(),
            ctrl.is_stopped() == address.is_stopped(),
    {
        MpcTlsLeaderCtrl { address }
    }

    /// Sends a message and waits for its reply.
    fn send(&mut self, msg: MpcTlsLeaderMsg) -> (outcome: Result<
        MpcTlsLeaderMsgReturn,
        MpcTlsError,
    >)
        requires
            old(self).wf(),
        ensures
            final(self).wf(),
            match outcome {
                Err(error) => {
                    &&& old(self).is_stopped()
                    &&& error == closed()
                    &&& final(self).session() == old(self).session()
                    &&& final(self).is_stopped()
                },
                Ok(ret) => {
                    &&& !old(self).is_stopped()
                    &&& ret.operation() == msg.operation()
                    &&& (final(self).session(), ret.outcome()) == msg.apply(old(self).session())
                    &&& final(self).is_stopped() == (msg is CloseConnection && ret.outcome()
                        == Outcome::Unit(Ok(())))
                },
            },
    {
        if self.address.ctx.stopped {
            return Err(MpcTlsError::io(IoError::Closed));
        }
        Ok(msg.dispatch(&mut self.address.actor, &mut self.address.ctx))
    }

    /// Where the session stands.
    pub fn step(&self) -> (step: Step)
        ensures
            step == self.session().step,
    {
        self.address.actor.step()
    }

    /// Waits for the leader to stop: a closed session hands over what it
    /// captured, any other resolves with an error.
    pub fn wait(self) -> (outcome: Result<MpcTlsData, MpcTlsError>)
        ensures
            match outcome {
                Ok(data) => {
                    &&& self.session().step == Step::Closed
                    &&& plain_records(data.sent@) == self.session().sent
                    &&& plain_records(data.received@) == self.session().received
                    &&& data.server_closed == self.session().server_closed
                },
                Err(error) => self.session().step != Step::Closed && error
                    == self.session().wrong_state(Phase::Closed),
            },
    {
        self.address.actor.stopped()
    }

    /// Sets the protocol version, which must be TLS 1.2.
    pub fn set_protocol_version(&mut self, version: ProtocolVersion) -> (reply: Result<
        (),
        BackendError,
    >)
        requires
            old(self).wf(),
        ensures
            final(self).wf(),
            final(self).is_stopped() == old(self).is_stopped(),
            final(self).session() == old(self).after(
                old(self).session().set_protocol_version(version),
            ),
            cause(reply) == old(self).told(old(self).session().set_protocol_version(version)),
    {
        let msg = BackendMsgSetProtocolVersion { version };
        match self.send(MpcTlsLeaderMsg::BackendMsgSetProtocolVersion(msg)) {
            Ok(MpcTlsLeaderMsgReturn::BackendMsgSetProtocolVersion(Ok(value))) => Ok(value),
            Ok(MpcTlsLeaderMsgReturn::BackendMsgSetProtocolVersion(Err(error))) => Err(
                BackendError::from_engine(error),
            ),
            Ok(_) => Err(BackendError::from_engine(MpcTlsError::Internal)),
            Err(error) => Err(BackendError::from_engine(error)),
        }
    }

    /// Sets the cipher suite, which must be one with AES-128-GCM and SHA-256.
    pub fn set_cipher_suite(&mut self, suite: SupportedCipherSuite) -> (reply: Result<
        (),
        BackendError,
    >)
        requires
            old(self).wf(),
        ensures
            final(self).wf(),
            final(self).is_stopped() == old(self).is_stopped(),
            final(self).session() == old(self).after(old(self).session().set_cipher_suite(suite)),
            cause(reply) == old(self).told(old(self).session().set_cipher_suite(suite)),
    {
        let msg = BackendMsgSetCipherSuite { suite };
        match self.send(MpcTlsLeaderMsg::BackendMsgSetCipherSuite(msg)) {
            Ok(MpcTlsLeaderMsgReturn::BackendMsgSetCipherSuite(Ok(value))) => Ok(value),
            Ok(MpcTlsLeaderMsgReturn::BackendMsgSetCipherSuite(Err(error))) => Err(
                BackendError::from_engine(error),
            ),
            Ok(_) => Err(BackendError::from_engine(MpcTlsError::Internal)),
            Err(error) => Err(BackendError::from_engine(error)),
        }
    }

    /// The cipher suite agreed.
    pub fn get_suite(&mut self) -> (reply: Result<SupportedCipherSuite, BackendError>)
        requires
            old(self).wf(),
        ensures
            final(self).wf(),
            final(self).is_stopped() == old(self).is_stopped(),
            final(self).session() == old(self).after(
                (old(self).session(), old(self).session().get_suite()),
            ),
            cause(reply) == old(self).told((old(self).session(), old(self).session().get_suite())),
    {
        match self.send(MpcTlsLeaderMsg::BackendMsgGetSuite(BackendMsgGetSuite)) {
            Ok(MpcTlsLeaderMsgReturn::BackendMsgGetSuite(Ok(value))) => Ok(value),
            Ok(MpcTlsLeaderMsgReturn::BackendMsgGetSuite(Err(error))) => Err(
                BackendError::from_engine(error),
            ),
            Ok(_) => Err(BackendError::from_engine(MpcTlsError::Internal)),
            Err(error) => Err(BackendError::from_engine(error)),
        }
    }

    /// Sets the mode of outgoing protection; the session takes note of nothing.
    pub fn set_encrypt(&mut self, mode: EncryptMode) -> (reply: Result<(), BackendError>)
        requires
            old(self).wf(),
        ensures
            final(self).wf(),
            final(self).is_stopped() == old(self).is_stopped(),
            final(self).session() == old(self).after(
                (old(self).session(), old(self).session().set_mode()),
            ),
            cause(reply) == old(self).told((old(self).session(), old(self).session().set_mode())),
    {
        match self.send(MpcTlsLeaderMsg::BackendMsgSetEncrypt(BackendMsgSetEncrypt { mode })) {
            Ok(MpcTlsLeaderMsgReturn::BackendMsgSetEncrypt(Ok(value))) => Ok(value),
            Ok(MpcTlsLeaderMsgReturn::BackendMsgSetEncrypt(Err(error))) => Err(
                BackendError::from_engine(error),
            ),
            Ok(_) => Err(BackendError::from_engine(MpcTlsError::Internal)),
            Err(error) => Err(BackendError::from_engine(error)),
        }
    }

    /// Sets the mode of incoming protection; the session takes note of nothing.
    pub fn set_decrypt(&mut self, mode: DecryptMode) -> (reply: Result<(), BackendError>)
        requires
            old(self).wf(),
        ensures
            final(self).wf(),
            final(self).is_stopped() == old(self).is_stopped(),
            final(self).session() == old(self).after(
                (old(self).session(), old(self).session().set_mode()),
            ),
            cause(reply) == old(self).told((old(self).session(), old(self).session().set_mode())),
    {
        match self.send(MpcTlsLeaderMsg::BackendMsgSetDecrypt(BackendMsgSetDecrypt { mode })) {
            Ok(MpcTlsLeaderMsgReturn::BackendMsgSetDecrypt(Ok(value))) => Ok(value),
            Ok(MpcTlsLeaderMsgReturn::BackendMsgSetDecrypt(Err(error))) => Err(
                BackendError::from_engine(error),
            ),
            Ok(_) => Err(BackendError::from_engine(MpcTlsError::Internal)),
            Err(error) => Err(BackendError::from_engine(error)),
        }
    }

    /// The client random.
    pub fn get_client_random(&mut self) -> (reply: Result<Random, BackendError>)
        requires
            old(self).wf(),
        ensures
            final(self).wf(),
            final(self).is_stopped() == old(self).is_stopped(),
            final(self).session() == old(self).after(old(self).session().get_client_random()),
            match reply {
                Ok(value) => old(self).told(
                    old(self).session().get_client_random(),
                ) == Ok::<Seq<u8>, Seq<char>>(value.0@),
                Err(error) => old(self).told(
                    old(self).session().get_client_random(),
                ) == Err::<Seq<u8>, Seq<char>>(error.cause()),
            },
    {
        match self.send(MpcTlsLeaderMsg::BackendMsgGetClientRandom(BackendMsgGetClientRandom)) {
            Ok(MpcTlsLeaderMsgReturn::BackendMsgGetClientRandom(Ok(value))) => Ok(value),
            Ok(MpcTlsLeaderMsgReturn::BackendMsgGetClientRandom(Err(error))) => Err(
                BackendError::from_engine(error),
            ),
            Ok(_) => Err(BackendError::from_engine(MpcTlsError::Internal)),
            Err(error) => Err(BackendError::from_engine(error)),
        }
    }

    /// The client's key share, a point on P-256.
    pub fn get_client_key_share(&mut self) -> (reply: Result<PublicKey, BackendError>)
        requires
            old(self).wf(),
        ensures
            final(self).wf(),
            final(self).is_stopped() == old(self).is_stopped(),
            final(self).session() == old(self).after(old(self).session().get_client_key_share()),
            match reply {
                Ok(value) => old(self).told(
                    old(self).session().get_client_key_share(),
                ) == Ok::<Seq<u8>, Seq<char>>(value.key@),
                Err(error) => old(self).told(
                    old(self).session().get_client_key_share(),
                ) == Err::<Seq<u8>, Seq<char>>(error.cause()),
            },
    {
        match self.send(MpcTlsLeaderMsg::BackendMsgGetClientKeyShare(BackendMsgGetClientKeyShare)) {
            Ok(MpcTlsLeaderMsgReturn::BackendMsgGetClientKeyShare(Ok(value))) => Ok(value),
            Ok(MpcTlsLeaderMsgReturn::BackendMsgGetClientKeyShare(Err(error))) => Err(
                BackendError::from_engine(error),
            ),
            Ok(_) => Err(BackendError::from_engine(MpcTlsError::Internal)),
            Err(error) => Err(BackendError::from_engine(error)),
        }
    }

    /// Sets the server random.
    pub fn set_server_random(&mut self, random: Random) -> (reply: Result<(), BackendError>)
        requires
            old(self).wf(),
        ensures
            final(self).wf(),
            final(self).is_stopped() == old(self).is_stopped(),
            final(self).session() == old(self).after(
                old(self).session().set_server_random(random.0@),
            ),
            cause(reply) == old(self).told(old(self).session().set_server_random(random.0@)),
    {
        let msg = BackendMsgSetServerRandom { random };
        match self.send(MpcTlsLeaderMsg::BackendMsgSetServerRandom(msg)) {
            Ok(MpcTlsLeaderMsgReturn::BackendMsgSetServerRandom(Ok(value))) => Ok(value),
            Ok(MpcTlsLeaderMsgReturn::BackendMsgSetServerRandom(Err(error))) => Err(
                BackendError::from_engine(error),
            ),
            Ok(_) => Err(BackendError::from_engine(MpcTlsError::Internal)),
            Err(error) => Err(BackendError::from_engine(error)),
        }
    }

    /// Sets the server's key share, which closes the key exchange.
    pub fn set_server_key_share(&mut self, key: PublicKey) -> (reply: Result<(), BackendError>)
        requires
            old(self).wf(),
        ensures
            final(self).wf(),
            final(self).is_stopped() == old(self).is_stopped(),
            final(self).session() == old(self).after(old(self).session().set_server_key_share()),
            cause(reply) == old(self).told(old(self).session().set_server_key_share()),
    {
        let msg = BackendMsgSetServerKeyShare { key };
        match self.send(MpcTlsLeaderMsg::BackendMsgSetServerKeyShare(msg)) {
            Ok(MpcTlsLeaderMsgReturn::BackendMsgSetServerKeyShare(Ok(value))) => Ok(value),
            Ok(MpcTlsLeaderMsgReturn::BackendMsgSetServerKeyShare(Err(error))) => Err(
                BackendError::from_engine(error),
            ),
            Ok(_) => Err(BackendError::from_engine(MpcTlsError::Internal)),
            Err(error) => Err(BackendError::from_engine(error)),
        }
    }

    /// Sets what the server presented as its identity.
    pub fn set_server_cert_details(&mut self, cert_details: ServerCertDetails) -> (reply: Result<
        (),
        BackendError,
    >)
        requires
            old(self).wf(),
        ensures
            final(self).wf(),
            final(self).is_stopped() == old(self).is_stopped(),
            final(self).session() == old(self).after(
                old(self).session().set_server_cert_details(cert_details.spki@),
            ),
            cause(reply) == old(self).told(
                old(self).session().set_server_cert_details(cert_details.spki@),
            ),
    {
        let msg = BackendMsgSetServerCertDetails { cert_details };
        match self.send(MpcTlsLeaderMsg::BackendMsgSetServerCertDetails(msg)) {
            Ok(MpcTlsLeaderMsgReturn::BackendMsgSetServerCertDetails(Ok(value))) => Ok(value),
            Ok(MpcTlsLeaderMsgReturn::BackendMsgSetServerCertDetails(Err(error))) => Err(
                BackendError::from_engine(error),
            ),
            Ok(_) => Err(BackendError::from_engine(MpcTlsError::Internal)),
            Err(error) => Err(BackendError::from_engine(error)),
        }
    }

    /// Sets the server's signed key exchange parameters.
    pub fn set_server_kx_details(&mut self, kx_details: ServerKxDetails) -> (reply: Result<
        (),
        BackendError,
    >)
        requires
            old(self).wf(),
        ensures
            final(self).wf(),
            final(self).is_stopped() == old(self).is_stopped(),
            final(self).session() == old(self).after(old(self).session().set_server_kx_details()),
            cause(reply) == old(self).told(old(self).session().set_server_kx_details()),
    {
        let msg = BackendMsgSetServerKxDetails { kx_details };
        match self.send(MpcTlsLeaderMsg::BackendMsgSetServerKxDetails(msg)) {
            Ok(MpcTlsLeaderMsgReturn::BackendMsgSetServerKxDetails(Ok(value))) => Ok(value),
            Ok(MpcTlsLeaderMsgReturn::BackendMsgSetServerKxDetails(Err(error))) => Err(
                BackendError::from_engine(error),
            ),
            Ok(_) => Err(BackendError::from_engine(MpcTlsError::Internal)),
            Err(error) => Err(BackendError::from_engine(error)),
        }
    }

    /// Sets the handshake hash up to the client's key exchange, from which the
    /// session keys are derived.
    pub fn set_hs_hash_client_key_exchange(&mut self, hash: Vec<u8>) -> (reply: Result<
        (),
        BackendError,
    >)
        requires
            old(self).wf(),
        ensures
            final(self).wf(),
            final(self).is_stopped() == old(self).is_stopped(),
            final(self).session() == old(self).after(
                old(self).session().set_hs_hash_client_key_exchange(hash@),
            ),
            cause(reply) == old(self).told(
                old(self).session().set_hs_hash_client_key_exchange(hash@),
            ),
    {
        let msg = BackendMsgSetHsHashClientKeyExchange { hash };
        match self.send(MpcTlsLeaderMsg::BackendMsgSetHsHashClientKeyExchange(msg)) {
            Ok(MpcTlsLeaderMsgReturn::BackendMsgSetHsHashClientKeyExchange(Ok(value))) => Ok(value),
            Ok(MpcTlsLeaderMsgReturn::BackendMsgSetHsHashClientKeyExchange(Err(error))) => Err(
                BackendError::from_engine(error),
            ),
            Ok(_) => Err(BackendError::from_engine(MpcTlsError::Internal)),
            Err(error) => Err(BackendError::from_engine(error)),
        }
    }

    /// Sets the handshake hash up to the server hello.
    pub fn set_hs_hash_server_hello(&mut self, hash: Vec<u8>) -> (reply: Result<(), BackendError>)
        requires
            old(self).wf(),
        ensures
            final(self).wf(),
            final(self).is_stopped() == old(self).is_stopped(),
            final(self).session() == old(self).after(
                old(self).session().set_hs_hash_server_hello(),
            ),
            cause(reply) == old(self).told(old(self).session().set_hs_hash_server_hello()),
    {
        let msg = BackendMsgSetHsHashServerHello { hash };
        match self.send(MpcTlsLeaderMsg::BackendMsgSetHsHashServerHello(msg)) {
            Ok(MpcTlsLeaderMsgReturn::BackendMsgSetHsHashServerHello(Ok(value))) => Ok(value),
            Ok(MpcTlsLeaderMsgReturn::BackendMsgSetHsHashServerHello(Err(error))) => Err(
                BackendError::from_engine(error),
            ),
            Ok(_) => Err(BackendError::from_engine(MpcTlsError::Internal)),
            Err(error) => Err(BackendError::from_engine(error)),
        }
    }

    /// The server's Finished verify data for the handshake hash `hash`.
    pub fn get_server_finished_vd(&mut self, hash: Vec<u8>) -> (reply: Result<
        Vec<u8>,
        BackendError,
    >)
        requires
            old(self).wf(),
        ensures
            final(self).wf(),
            final(self).is_stopped() == old(self).is_stopped(),
            final(self).session() == old(self).after(
                old(self).session().get_server_finished_vd(hash@),
            ),
            match reply {
                Ok(value) => old(self).told(
                    old(self).session().get_server_finished_vd(hash@),
                ) == Ok::<Seq<u8>, Seq<char>>(value@),
                Err(error) => old(self).told(
                    old(self).session().get_server_finished_vd(hash@),
                ) == Err::<Seq<u8>, Seq<char>>(error.cause()),
            },
    {
        let msg = BackendMsgGetServerFinishedVd { hash };
        match self.send(MpcTlsLeaderMsg::BackendMsgGetServerFinishedVd(msg)) {
            Ok(MpcTlsLeaderMsgReturn::BackendMsgGetServerFinishedVd(Ok(value))) => Ok(value),
            Ok(MpcTlsLeaderMsgReturn::BackendMsgGetServerFinishedVd(Err(error))) => Err(
                BackendError::from_engine(error),
            ),
            Ok(_) => Err(BackendError::from_engine(MpcTlsError::Internal)),
            Err(error) => Err(BackendError::from_engine(error)),
        }
    }

    /// The client's Finished verify data for the handshake hash `hash`.
    pub fn get_client_finished_vd(&mut self, hash: Vec<u8>) -> (reply: Result<
        Vec<u8>,
        BackendError,
    >)
        requires
            old(self).wf(),
        ensures
            final(self).wf(),
            final(self).is_stopped() == old(self).is_stopped(),
            final(self).session() == old(self).after(
                old(self).session().get_client_finished_vd(hash@),
            ),
            match reply {
                Ok(value) => old(self).told(
                    old(self).session().get_client_finished_vd(hash@),
                ) == Ok::<Seq<u8>, Seq<char>>(value@),
                Err(error) => old(self).told(
                    old(self).session().get_client_finished_vd(hash@),
                ) == Err::<Seq<u8>, Seq<char>>(error.cause()),
            },
    {
        let msg = BackendMsgGetClientFinishedVd { hash };
        match self.send(MpcTlsLeaderMsg::BackendMsgGetClientFinishedVd(msg)) {
            Ok(MpcTlsLeaderMsgReturn::BackendMsgGetClientFinishedVd(Ok(value))) => Ok(value),
            Ok(MpcTlsLeaderMsgReturn::BackendMsgGetClientFinishedVd(Err(error))) => Err(
                BackendError::from_engine(error),
            ),
            Ok(_) => Err(BackendError::from_engine(MpcTlsError::Internal)),
            Err(error) => Err(BackendError::from_engine(error)),
        }
    }

    /// Makes the record layer ready, after which records flow.
    pub fn prepare_encryption(&mut self) -> (reply: Result<(), BackendError>)
        requires
            old(self).wf(),
        ensures
            final(self).wf(),
            final(self).is_stopped() == old(self).is_stopped(),
            final(self).session() == old(self).after(old(self).session().prepare_encryption()),
            cause(reply) == old(self).told(old(self).session().prepare_encryption()),
    {
        match self.send(MpcTlsLeaderMsg::BackendMsgPrepareEncryption(BackendMsgPrepareEncryption)) {
            Ok(MpcTlsLeaderMsgReturn::BackendMsgPrepareEncryption(Ok(value))) => Ok(value),
            Ok(MpcTlsLeaderMsgReturn::BackendMsgPrepareEncryption(Err(error))) => Err(
                BackendError::from_engine(error),
            ),
            Ok(_) => Err(BackendError::from_engine(MpcTlsError::Internal)),
            Err(error) => Err(BackendError::from_engine(error)),
        }
    }

    /// Protects the outgoing record `msg` under the number `seq`.
    pub fn encrypt(&mut self, msg: PlainMessage, seq: u64) -> (reply: Result<
        OpaqueMessage,
        BackendError,
    >)
        requires
            old(self).wf(),
        ensures
            final(self).wf(),
            final(self).is_stopped() == old(self).is_stopped(),
            final(self).session() == old(self).after(old(self).session().encrypt(msg@, seq)),
            match reply {
                Ok(value) => old(self).told(
                    old(self).session().encrypt(msg@, seq),
                ) == Ok::<Record, Seq<char>>(value@),
                Err(error) => old(self).told(
                    old(self).session().encrypt(msg@, seq),
                ) == Err::<Record, Seq<char>>(error.cause()),
            },
    {
        match self.send(MpcTlsLeaderMsg::BackendMsgEncrypt(BackendMsgEncrypt { msg, seq })) {
            Ok(MpcTlsLeaderMsgReturn::BackendMsgEncrypt(Ok(value))) => Ok(value),
            Ok(MpcTlsLeaderMsgReturn::BackendMsgEncrypt(Err(error))) => Err(
                BackendError::from_engine(error),
            ),
            Ok(_) => Err(BackendError::from_engine(MpcTlsError::Internal)),
            Err(error) => Err(BackendError::from_engine(error)),
        }
    }

    /// Takes in the protected record `msg` under the number `seq`.
    pub fn decrypt(&mut self, msg: OpaqueMessage, seq: u64) -> (reply: Result<
        PlainMessage,
        BackendError,
    >)
        requires
            old(self).wf(),
        ensures
            final(self).wf(),
            final(self).is_stopped() == old(self).is_stopped(),
            final(self).session() == old(self).after(old(self).session().decrypt(msg@, seq)),
            match reply {
                Ok(value) => old(self).told(
                    old(self).session().decrypt(msg@, seq),
                ) == Ok::<Record, Seq<char>>(value@),
                Err(error) => old(self).told(
                    old(self).session().decrypt(msg@, seq),
                ) == Err::<Record, Seq<char>>(error.cause()),
            },
    {
        match self.send(MpcTlsLeaderMsg::BackendMsgDecrypt(BackendMsgDecrypt { msg, seq })) {
            Ok(MpcTlsLeaderMsgReturn::BackendMsgDecrypt(Ok(value))) => Ok(value),
            Ok(MpcTlsLeaderMsgReturn::BackendMsgDecrypt(Err(error))) => Err(
                BackendError::from_engine(error),
            ),
            Ok(_) => Err(BackendError::from_engine(MpcTlsError::Internal)),
            Err(error) => Err(BackendError::from_engine(error)),
        }
    }

    /// Hands out the oldest buffered record. While decryption is deferred the
    /// records are held back.
    pub fn next_incoming(&mut self) -> (reply: Result<Option<OpaqueMessage>, BackendError>)
        requires
            old(self).wf(),
        ensures
            final(self).wf(),
            final(self).is_stopped() == old(self).is_stopped(),
            final(self).session() == old(self).after(old(self).session().next_incoming()),
            match reply {
                Ok(Some(value)) => old(self).told(
                    old(self).session().next_incoming(),
                ) == Ok::<Option<Record>, Seq<char>>(Some(value@)),
                Ok(None) => old(self).told(
                    old(self).session().next_incoming(),
                ) == Ok::<Option<Record>, Seq<char>>(None),
                Err(error) => old(self).told(
                    old(self).session().next_incoming(),
                ) == Err::<Option<Record>, Seq<char>>(error.cause()),
            },
    {
        match self.send(MpcTlsLeaderMsg::BackendMsgNextIncoming(BackendMsgNextIncoming)) {
            Ok(MpcTlsLeaderMsgReturn::BackendMsgNextIncoming(Ok(value))) => Ok(value),
            Ok(MpcTlsLeaderMsgReturn::BackendMsgNextIncoming(Err(error))) => Err(
                BackendError::from_engine(error),
            ),
            Ok(_) => Err(BackendError::from_engine(MpcTlsError::Internal)),
            Err(error) => Err(BackendError::from_engine(error)),
        }
    }

    /// Puts a protected record into the buffer, for as long as the budget of bytes
    /// received covers everything buffered.
    pub fn buffer_incoming(&mut self, msg: OpaqueMessage) -> (reply: Result<(), BackendError>)
        requires
            old(self).wf(),
        ensures
            final(self).wf(),
            final(self).is_stopped() == old(self).is_stopped(),
            final(self).session() == old(self).after(old(self).session().buffer_incoming(msg@)),
            cause(reply) == old(self).told(old(self).session().buffer_incoming(msg@)),
    {
        let msg = BackendMsgBufferIncoming { msg };
        match self.send(MpcTlsLeaderMsg::BackendMsgBufferIncoming(msg)) {
            Ok(MpcTlsLeaderMsgReturn::BackendMsgBufferIncoming(Ok(value))) => Ok(value),
            Ok(MpcTlsLeaderMsgReturn::BackendMsgBufferIncoming(Err(error))) => Err(
                BackendError::from_engine(error),
            ),
            Ok(_) => Err(BackendError::from_engine(MpcTlsError::Internal)),
            Err(error) => Err(BackendError::from_engine(error)),
        }
    }

    /// Tells whether a buffered record can be handed out.
    pub fn get_notify(&mut self) -> (reply: Result<BackendNotify, BackendError>)
        requires
            old(self).wf(),
        ensures
            final(self).wf(),
            final(self).is_stopped() == old(self).is_stopped(),
            final(self).session() == old(self).after(
                (old(self).session(), old(self).session().get_notify()),
            ),
            cause(reply) == old(self).told((old(self).session(), old(self).session().get_notify())),
    {
        match self.send(MpcTlsLeaderMsg::BackendMsgGetNotify(BackendMsgGetNotify)) {
            Ok(MpcTlsLeaderMsgReturn::BackendMsgGetNotify(Ok(value))) => Ok(value),
            Ok(MpcTlsLeaderMsgReturn::BackendMsgGetNotify(Err(error))) => Err(
                BackendError::from_engine(error),
            ),
            Ok(_) => Err(BackendError::from_engine(MpcTlsError::Internal)),
            Err(error) => Err(BackendError::from_engine(error)),
        }
    }

    /// Number of records waiting in the buffer.
    pub fn buffer_len(&mut self) -> (reply: Result<usize, BackendError>)
        requires
            old(self).wf(),
        ensures
            final(self).wf(),
            final(self).is_stopped() == old(self).is_stopped(),
            final(self).session() == old(self).after(
                (old(self).session(), old(self).session().buffer_len()),
            ),
            match reply {
                Ok(value) => old(self).told(
                    (old(self).session(), old(self).session().buffer_len()),
                ) == Ok::<nat, Seq<char>>(value as nat),
                Err(error) => old(self).told(
                    (old(self).session(), old(self).session().buffer_len()),
                ) == Err::<nat, Seq<char>>(error.cause()),
            },
    {
        match self.send(MpcTlsLeaderMsg::BackendMsgBufferLen(BackendMsgBufferLen)) {
            Ok(MpcTlsLeaderMsgReturn::BackendMsgBufferLen(Ok(value))) => Ok(value),
            Ok(MpcTlsLeaderMsgReturn::BackendMsgBufferLen(Err(error))) => Err(
                BackendError::from_engine(error),
            ),
            Ok(_) => Err(BackendError::from_engine(MpcTlsError::Internal)),
            Err(error) => Err(BackendError::from_engine(error)),
        }
    }

    /// Takes note that the server closed its end.
    pub fn server_closed(&mut self) -> (reply: Result<(), BackendError>)
        requires
            old(self).wf(),
        ensures
            final(self).wf(),
            final(self).is_stopped() == old(self).is_stopped(),
            final(self).session() == old(self).after(old(self).session().server_closed()),
            cause(reply) == old(self).told(old(self).session().server_closed()),
    {
        match self.send(MpcTlsLeaderMsg::BackendMsgServerClosed(BackendMsgServerClosed)) {
            Ok(MpcTlsLeaderMsgReturn::BackendMsgServerClosed(Ok(value))) => Ok(value),
            Ok(MpcTlsLeaderMsgReturn::BackendMsgServerClosed(Err(error))) => Err(
                BackendError::from_engine(error),
            ),
            Ok(_) => Err(BackendError::from_engine(MpcTlsError::Internal)),
            Err(error) => Err(BackendError::from_engine(error)),
        }
    }

    /// Defers decryption of any incoming messages.
    pub fn defer_decryption(&mut self) -> (reply: Result<(), MpcTlsError>)
        requires
            old(self).wf(),
        ensures
            final(self).wf(),
            final(self).is_stopped() == old(self).is_stopped(),
            final(self).session() == old(self).after(old(self).session().defer_decryption()),
            reply == old(self).sent(old(self).session().defer_decryption()).1,
    {
        match self.send(MpcTlsLeaderMsg::DeferDecryption(DeferDecryption)) {
            Ok(MpcTlsLeaderMsgReturn::DeferDecryption(value)) => value,
            Ok(_) => Err(MpcTlsError::Internal),
            Err(error) => Err(error),
        }
    }

    /// Closes the connection, which stops the leader.
    pub fn close_connection(&mut self) -> (reply: Result<(), MpcTlsError>)
        requires
            old(self).wf(),
        ensures
            final(self).wf(),
            final(self).is_stopped() == (old(self).is_stopped() || reply is Ok),
            final(self).session() == old(self).after(old(self).session().close_connection()),
            reply == old(self).sent(old(self).session().close_connection()).1,
    {
        match self.send(MpcTlsLeaderMsg::CloseConnection(CloseConnection)) {
            Ok(MpcTlsLeaderMsgReturn::CloseConnection(value)) => value,
            Ok(_) => Err(MpcTlsError::Internal),
            Err(error) => Err(error),
        }
    }

    /// Commits the leader to the current transcript.
    ///
    /// This reveals the AEAD key to the leader and disables sending or
    /// receiving any further messages.
    pub fn commit(&mut self) -> (reply: Result<(), MpcTlsError>)
        requires
            old(self).wf(),
        ensures
            final(self).wf(),
            final(self).is_stopped() == old(self).is_stopped(),
            final(self).session() == old(self).after(old(self).session().commit()),
            reply == old(self).sent(old(self).session().commit()).1,
    {
        match self.send(MpcTlsLeaderMsg::Commit(Commit)) {
            Ok(MpcTlsLeaderMsgReturn::Commit(value)) => value,
            Ok(_) => Err(MpcTlsError::Internal),
            Err(error) => Err(error),
        }
    }
}

} // verus!
