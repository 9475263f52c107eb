//! What holds of every session, whatever the messages it is sent.

use crate::error::{MpcTlsError, Phase};
use crate::leader::msg::{MpcTlsLeaderMsg, Operation, Outcome};
use crate::leader::state::{protect, unprotect, Session, SessionKeys, Step};
use crate::record_layer::gcm::{gcm_ciphertext, gcm_tag, lemma_open_seal};
use crate::msgs::{be64, record_aad, Record, RECORD_OVERHEAD};
use crate::prf::{label_master_secret, label_server_finished, prf_bytes};
use vstd::prelude::*;

verus! {

impl Outcome {
    /// The error a reply carries, if it carries one.
    pub open spec fn error(self) -> Option<MpcTlsError> {
        match self {
            Outcome::Unit(Err(error)) => Some(error),
            Outcome::Suite(Err(error)) => Some(error),
            Outcome::Bytes(Err(error)) => Some(error),
            Outcome::Message(Err(error)) => Some(error),
            Outcome::Next(Err(error)) => Some(error),
            Outcome::Notify(Err(error)) => Some(error),
            Outcome::Len(Err(error)) => Some(error),
            _ => None,
        }
    }
}

impl Operation {
    /// The phase an operation belongs to: the one named as expected when the
    /// operation is refused.
    pub open spec fn phase(self) -> Phase {
        match self {
            Operation::SetProtocolVersion
            | Operation::SetCipherSuite => Phase::HandshakeSetup,
            Operation::GetSuite
            | Operation::GetClientRandom
            | Operation::GetClientKeyShare
            | Operation::SetServerRandom
            | Operation::SetServerKeyShare => Phase::KeyExchange,
            Operation::SetServerCertDetails
            | Operation::SetServerKxDetails
            | Operation::SetHsHashClientKeyExchange => Phase::DeriveMasterSecret,
            Operation::GetClientFinishedVd => Phase::ClientFinished,
            Operation::SetHsHashServerHello
            | Operation::GetServerFinishedVd
            | Operation::PrepareEncryption => Phase::ServerFinished,
            _ => Phase::Active,
        }
    }

    /// The transition table: the steps at which an operation is allowed.
    pub open spec fn allowed(self, step: Step) -> bool {
        match self {
            Operation::SetProtocolVersion => step == Step::SetProtocolVersion,
            Operation::SetCipherSuite => step == Step::SetCipherSuite,
            Operation::GetSuite => step.has_suite(),
            Operation::SetEncrypt
            | Operation::SetDecrypt
            | Operation::GetNotify
            | Operation::BufferLen => step != Step::Failed,
            Operation::GetClientRandom => step == Step::GetClientRandom,
            Operation::GetClientKeyShare => step == Step::GetClientKeyShare,
            Operation::SetServerRandom => step == Step::SetServerRandom,
            Operation::SetServerKeyShare => step == Step::SetServerKeyShare,
            Operation::SetServerCertDetails => step == Step::SetServerCertDetails,
            Operation::SetServerKxDetails => step == Step::SetServerKxDetails,
            Operation::SetHsHashClientKeyExchange => step
                == Step::SetHsHashClientKeyExchange,
            Operation::GetClientFinishedVd => step == Step::GetClientFinishedVd,
            Operation::SetHsHashServerHello => step == Step::SetHsHashServerHello,
            Operation::GetServerFinishedVd => step == Step::GetServerFinishedVd,
            Operation::PrepareEncryption => step == Step::PrepareEncryption,
            Operation::Encrypt
            | Operation::BufferIncoming
            | Operation::NextIncoming
            | Operation::Commit => step.is_open(),
            Operation::Decrypt | Operation::DeferDecryption => step == Step::Active,
            Operation::ServerClosed | Operation::CloseConnection => step.is_open()
                || step == Step::Committed,
        }
    }
}

/// Draining fails only for a reason that ends the session.
pub proof fn lemma_drain_errors(session: Session, from: nat)
    ensures
        session.drain(from) is Err ==> session.drain(from)->Err_0.is_fatal(),
    decreases session.buffer.len() - from,
{
    reveal(Session::drain);
    if from < session.buffer.len() {
        match session.accept(session.buffer[from as int], session.seq_in) {
            Ok(plain) => {
                lemma_drain_errors(session.received(plain), from + 1);
            },
            Err(_) => {},
        }
    }
}

/// An operation issued at a step where the transition table forbids it
/// fails with `InvalidState`, naming the operation's phase and the session's,
/// and leaves the session as it was. Issued where the table allows it, it
/// never fails with `InvalidState`.
pub proof fn lemma_forbidden_operation(session: Session, msg: MpcTlsLeaderMsg)
    ensures
        !msg.operation().allowed(session.step) ==> {
            &&& msg.apply(session).0 == session
            &&& msg.apply(session).1.error() == Some(
                MpcTlsError::InvalidState {
                    expected: msg.operation().phase(),
                    actual: session.step.phase(),
                },
            )
        },
        msg.operation().allowed(session.step) ==> !(msg.apply(session).1.error() matches Some(
            MpcTlsError::InvalidState { .. },
        )),
{
    match msg {
        MpcTlsLeaderMsg::BackendMsgSetProtocolVersion(_) => {},
        MpcTlsLeaderMsg::BackendMsgSetCipherSuite(_) => {},
        MpcTlsLeaderMsg::BackendMsgGetSuite(_) => {},
        MpcTlsLeaderMsg::BackendMsgSetEncrypt(_) => {},
        MpcTlsLeaderMsg::BackendMsgSetDecrypt(_) => {},
        MpcTlsLeaderMsg::BackendMsgGetClientRandom(_) => {},
        MpcTlsLeaderMsg::BackendMsgGetClientKeyShare(_) => {},
        MpcTlsLeaderMsg::BackendMsgSetServerRandom(_) => {},
        MpcTlsLeaderMsg::BackendMsgSetServerKeyShare(_) => {},
        MpcTlsLeaderMsg::BackendMsgSetServerCertDetails(_) => {},
        MpcTlsLeaderMsg::BackendMsgSetServerKxDetails(_) => {},
        MpcTlsLeaderMsg::BackendMsgSetHsHashClientKeyExchange(_) => {},
        MpcTlsLeaderMsg::BackendMsgSetHsHashServerHello(_) => {},
        MpcTlsLeaderMsg::BackendMsgGetServerFinishedVd(_) => {},
        MpcTlsLeaderMsg::BackendMsgGetClientFinishedVd(_) => {},
        MpcTlsLeaderMsg::BackendMsgPrepareEncryption(_) => {},
        MpcTlsLeaderMsg::BackendMsgEncrypt(_) => {},
        MpcTlsLeaderMsg::BackendMsgDecrypt(_) => {},
        MpcTlsLeaderMsg::BackendMsgNextIncoming(_) => {},
        MpcTlsLeaderMsg::BackendMsgBufferIncoming(_) => {},
        MpcTlsLeaderMsg::BackendMsgGetNotify(_) => {},
        MpcTlsLeaderMsg::BackendMsgBufferLen(_) => {},
        MpcTlsLeaderMsg::BackendMsgServerClosed(_) => {},
        MpcTlsLeaderMsg::DeferDecryption(_) => {},
        MpcTlsLeaderMsg::CloseConnection(_) => {},
        MpcTlsLeaderMsg::Commit(_) => {
            lemma_drain_errors(session, 0);
        },
    }
}

/// Whatever fails with an error other than `InvalidState` ends the session:
/// it is in the terminal state afterwards, where every operation is
/// forbidden.
pub proof fn lemma_fatal_error_is_terminal(
    session: Session,
    msg: MpcTlsLeaderMsg,
    later: MpcTlsLeaderMsg,
)
    requires
        msg.apply(session).1.error() is Some,
        msg.apply(session).1.error()->Some_0.is_fatal(),
    ensures
        msg.apply(session).0 == session.failed(),
        later.apply(session.failed()).0 == session.failed(),
        later.apply(session.failed()).1.error() matches Some(MpcTlsError::InvalidState { .. }),
{
    lemma_forbidden_operation(session.failed(), later);
}

/// The server's Finished verify data is the first twelve bytes of the
/// pseudorandom function on the master secret, the label `server finished`
/// and the handshake hash, where the master secret is the one the handshake
/// derived from the pre-master secret and the hash of the client's key
/// exchange.
pub proof fn lemma_server_finished(
    session: Session,
    hash_client_key_exchange: Seq<u8>,
    hash_client_finished: Seq<u8>,
    hash_server_finished: Seq<u8>,
)
    requires
        session.step == Step::SetHsHashClientKeyExchange,
    ensures
        ({
            let derived = session.set_hs_hash_client_key_exchange(hash_client_key_exchange).0;
            let client_done = derived.get_client_finished_vd(hash_client_finished).0;
            let hashed = client_done.set_hs_hash_server_hello().0;
            hashed.get_server_finished_vd(hash_server_finished).1 == Ok::<Seq<u8>, MpcTlsError>(
                prf_bytes(
                    prf_bytes(
                        session.pre_master_secret,
                        label_master_secret(),
                        hash_client_key_exchange,
                        48,
                    ),
                    label_server_finished(),
                    hash_server_finished,
                    12,
                ),
            )
        }),
{
}

/// An accepted outgoing record carries the number due and moves that number
/// on by one; a refused one moves nothing; a number that is not the one due,
/// a gap or a duplicate, is refused.
pub proof fn lemma_seq_out(session: Session, record: Record, seq: u64)
    ensures
        ({
            let (after, reply) = session.encrypt(record, seq);
            &&& reply is Ok ==> seq == session.seq_out && after.seq_out == session.seq_out + 1
            &&& reply is Err ==> after.seq_out == session.seq_out
            &&& seq != session.seq_out ==> reply is Err
            &&& after.seq_in == session.seq_in
        }),
{
}

/// An accepted incoming record carries the number due and moves that number
/// on by one; a refused one moves nothing; a number that is not the one due,
/// a gap or a duplicate, is refused.
pub proof fn lemma_seq_in(session: Session, record: Record, seq: u64)
    ensures
        ({
            let (after, reply) = session.decrypt(record, seq);
            &&& reply is Ok ==> seq == session.seq_in && after.seq_in == session.seq_in + 1
            &&& reply is Err ==> after.seq_in == session.seq_in
            &&& seq != session.seq_in ==> reply is Err
            &&& after.seq_out == session.seq_out
        }),
{
}

/// Draining opens each buffered record under the number due and moves that
/// number on by one per record.
pub proof fn lemma_drain_counts(session: Session, from: nat)
    requires
        from <= session.buffer.len(),
    ensures
        session.drain(from) is Ok ==> {
            &&& session.drain(from)->Ok_0.seq_in == session.seq_in + session.buffer.len() - from
            &&& session.drain(from)->Ok_0.seq_out == session.seq_out
            &&& session.drain(from)->Ok_0.step == session.step
            &&& session.drain(from)->Ok_0.buffer.len() == 0
            &&& session.drain(from)->Ok_0.config == session.config
        },
    decreases session.buffer.len() - from,
{
    reveal(Session::drain);
    if from < session.buffer.len() {
        match session.accept(session.buffer[from as int], session.seq_in) {
            Ok(plain) => {
                lemma_drain_counts(session.received(plain), from + 1);
            },
            Err(_) => {},
        }
    }
}

/// No message but an accepted record or a commit moves a record number: the
/// outgoing number moves by one with each record protected and not
/// otherwise; the incoming number moves by one with each record taken in, by
/// one per buffered record with a commit, and not otherwise.
pub proof fn lemma_counters(session: Session, msg: MpcTlsLeaderMsg)
    ensures
        ({
            let (after, reply) = msg.apply(session);
            &&& after.seq_out == session.seq_out + if msg is BackendMsgEncrypt && reply.error()
                is None {
                1int
            } else {
                0int
            }
            &&& after.seq_in == session.seq_in + if msg is BackendMsgDecrypt && reply.error()
                is None {
                1int
            } else if msg is Commit && reply.error() is None {
                session.buffer.len() as int
            } else {
                0int
            }
            &&& (after.seq_out != session.seq_out || after.seq_in != session.seq_in)
                ==> session.step.is_open()
        }),
{
    lemma_drain_counts(session, 0);
}

/// Draining keeps the plaintext received within its budget.
pub proof fn lemma_drain_budget(session: Session, from: nat)
    requires
        session.recv_bytes <= session.config.max_recv_bytes,
    ensures
        session.drain(from) is Ok ==> {
            &&& session.drain(from)->Ok_0.recv_bytes <= session.config.max_recv_bytes
            &&& session.drain(from)->Ok_0.sent_bytes == session.sent_bytes
            &&& session.drain(from)->Ok_0.config == session.config
        },
    decreases session.buffer.len() - from,
{
    reveal(Session::drain);
    if from < session.buffer.len() {
        match session.accept(session.buffer[from as int], session.seq_in) {
            Ok(plain) => {
                lemma_drain_budget(session.received(plain), from + 1);
            },
            Err(_) => {},
        }
    }
}

/// Whatever the messages, the plaintext sent and the plaintext received stay
/// within their budgets.
pub proof fn lemma_budgets_hold(session: Session, msg: MpcTlsLeaderMsg)
    requires
        session.sent_bytes <= session.config.max_sent_bytes,
        session.recv_bytes <= session.config.max_recv_bytes,
    ensures
        msg.apply(session).0.config == session.config,
        msg.apply(session).0.sent_bytes <= session.config.max_sent_bytes,
        msg.apply(session).0.recv_bytes <= session.config.max_recv_bytes,
{
    lemma_drain_budget(session, 0);
}

/// The record that would take the plaintext sent past the budget is refused
/// with `Capacity`, and the session ends; a record within the budget is not
/// refused on its account, and the plaintext sent stays within the budget.
pub proof fn lemma_send_budget(session: Session, record: Record, seq: u64)
    requires
        session.step.is_open(),
        seq == session.seq_out,
        session.sent_bytes <= session.config.max_sent_bytes,
    ensures
        session.sent_bytes + record.payload.len() > session.config.max_sent_bytes
            ==> session.encrypt(record, seq) == (
            session.failed(),
            Err::<Record, MpcTlsError>(MpcTlsError::Capacity),
        ),
        session.encrypt(record, seq).0.sent_bytes <= session.config.max_sent_bytes,
        session.encrypt(record, seq).1 is Ok ==> session.encrypt(record, seq).0.sent_bytes
            == session.sent_bytes + record.payload.len(),
{
}

/// After a commit nothing is protected, buffered or taken in any more, and
/// the connection can be closed.
pub proof fn lemma_after_commit(session: Session, plain: Record, opaque: Record, seq: u64)
    requires
        session.commit().1 is Ok,
    ensures
        ({
            let committed = session.commit().0;
            &&& committed.step == Step::Committed
            &&& committed.buffer.len() == 0
            &&& committed.encrypt(plain, seq).1 is Err
            &&& committed.buffer_incoming(opaque).1 is Err
            &&& committed.decrypt(opaque, seq).1 is Err
            &&& committed.close_connection() == (
                committed.at(Step::Closed),
                Ok::<(), MpcTlsError>(()),
            )
        }),
{
    lemma_drain_counts(session, 0);
}

/// The keys as the other end of the connection holds them: what one end
/// writes with, the other reads with.
pub open spec fn peer_keys(keys: SessionKeys) -> SessionKeys {
    SessionKeys {
        client_write_key: keys.server_write_key,
        server_write_key: keys.client_write_key,
        client_write_iv: keys.server_write_iv,
        server_write_iv: keys.client_write_iv,
    }
}

/// A record protected under a sequence number is taken in, under the same
/// number, by whoever reads with the keys it was written with, and comes out
/// as it went in.
pub proof fn lemma_unprotect_protect(keys: SessionKeys, seq: u64, record: Record)
    ensures
        unprotect(peer_keys(keys), seq, protect(keys, seq, record)) == Some(record),
{
    let nonce = be64(seq);
    let aad = record_aad(seq, record.typ, record.version, record.payload.len());
    let ciphertext = gcm_ciphertext(
        keys.client_write_key,
        keys.client_write_iv,
        nonce,
        record.payload,
    );
    let tag = gcm_tag(keys.client_write_key, keys.client_write_iv, nonce, aad, ciphertext);
    let payload = protect(keys, seq, record).payload;
    let len = payload.len() as int;
    lemma_open_seal(keys.client_write_key, keys.client_write_iv, nonce, aad, record.payload);
    assert(payload == nonce + (ciphertext + tag));
    assert(len == record.payload.len() + RECORD_OVERHEAD);
    assert(payload.subrange(0, 8) =~= nonce);
    assert(payload.subrange(8, len - 16) =~= ciphertext);
    assert(payload.subrange(len - 16, len) =~= tag);
}

/// A protected record whose tag is not the tag of its ciphertext, its number
/// and its header is not taken in: altering any of them, or the tag itself,
/// shows unless the tag still fits.
pub proof fn lemma_unprotect_rejects(keys: SessionKeys, seq: u64, record: Record)
    requires
        record.payload.len() >= RECORD_OVERHEAD,
        record.payload.subrange(record.payload.len() - 16, record.payload.len() as int) != gcm_tag(
            keys.server_write_key,
            keys.server_write_iv,
            record.payload.subrange(0, 8),
            record_aad(
                seq,
                record.typ,
                record.version,
                (record.payload.len() - RECORD_OVERHEAD) as nat,
            ),
            record.payload.subrange(8, record.payload.len() - 16),
        ),
    ensures
        unprotect(keys, seq, record) is None,
{
}

} // verus!
