//! The follower's view of a session follows the leader's.

use crate::error::MpcTlsError;
use crate::follower::{pending_lengths, Command, Mirror};
use crate::leader::msg::MpcTlsLeaderMsg;
use crate::leader::state::{pending_bytes, unprotect, Session, Step};
use crate::msgs::Record;
use vstd::prelude::*;

verus! {

/// The command that tells the follower of a message the leader handles, for
/// the messages that have one. A record to take in is sent along with what
/// the joint check of its tag finds.
pub open spec fn command_for(msg: MpcTlsLeaderMsg, session: Session) -> Option<Command> {
    match msg {
        MpcTlsLeaderMsg::BackendMsgSetProtocolVersion(m) => Some(
            Command::SetProtocolVersion(m.version),
        ),
        MpcTlsLeaderMsg::BackendMsgSetCipherSuite(m) => Some(Command::SetCipherSuite(m.suite)),
        MpcTlsLeaderMsg::BackendMsgGetSuite(_) => Some(Command::GetSuite),
        MpcTlsLeaderMsg::BackendMsgSetEncrypt(_) => Some(Command::SetMode),
        MpcTlsLeaderMsg::BackendMsgSetDecrypt(_) => Some(Command::SetMode),
        MpcTlsLeaderMsg::BackendMsgGetClientRandom(_) => Some(Command::GetClientRandom),
        MpcTlsLeaderMsg::BackendMsgGetClientKeyShare(_) => Some(Command::GetClientKeyShare),
        MpcTlsLeaderMsg::BackendMsgSetServerRandom(_) => Some(Command::SetServerRandom),
        MpcTlsLeaderMsg::BackendMsgSetServerKeyShare(_) => Some(Command::SetServerKeyShare),
        MpcTlsLeaderMsg::BackendMsgSetServerCertDetails(m) => Some(
            Command::SetServerCertDetails(m.cert_details.spki@),
        ),
        MpcTlsLeaderMsg::BackendMsgSetServerKxDetails(_) => Some(Command::SetServerKxDetails),
        MpcTlsLeaderMsg::BackendMsgSetHsHashClientKeyExchange(_) => Some(
            Command::SetHsHashClientKeyExchange,
        ),
        MpcTlsLeaderMsg::BackendMsgSetHsHashServerHello(_) => Some(Command::SetHsHashServerHello),
        MpcTlsLeaderMsg::BackendMsgGetServerFinishedVd(_) => Some(Command::GetServerFinishedVd),
        MpcTlsLeaderMsg::BackendMsgGetClientFinishedVd(_) => Some(Command::GetClientFinishedVd),
        MpcTlsLeaderMsg::BackendMsgPrepareEncryption(_) => Some(
            Command::PrepareEncryption(session.config.defer_decryption_from_start),
        ),
        MpcTlsLeaderMsg::BackendMsgEncrypt(m) => Some(
            Command::Encrypt(m.msg.payload@.len(), m.seq),
        ),
        MpcTlsLeaderMsg::BackendMsgDecrypt(m) => Some(
            Command::Decrypt(
                m.msg.payload@.len(),
                m.seq,
                unprotect(session.keys, m.seq, m.msg@) is Some,
            ),
        ),
        MpcTlsLeaderMsg::BackendMsgNextIncoming(_) => Some(Command::NextIncoming),
        MpcTlsLeaderMsg::BackendMsgBufferIncoming(m) => Some(
            Command::BufferIncoming(m.msg.payload@.len()),
        ),
        MpcTlsLeaderMsg::BackendMsgGetNotify(_) => None,
        MpcTlsLeaderMsg::BackendMsgBufferLen(_) => None,
        MpcTlsLeaderMsg::BackendMsgServerClosed(_) => Some(Command::ServerClosed),
        MpcTlsLeaderMsg::DeferDecryption(_) => Some(Command::DeferDecryption),
        MpcTlsLeaderMsg::CloseConnection(_) => Some(Command::CloseConnection),
        MpcTlsLeaderMsg::Commit(_) => Some(Command::Commit),
    }
}

/// The payload lengths of a list of records.
pub open spec fn payload_lengths(buffer: Seq<Record>) -> Seq<nat> {
    Seq::new(buffer.len(), |i: int| buffer[i].payload.len())
}

/// The follower's view agrees with the leader's session: same options, same
/// step, same outgoing side; and, until the leader has opened records on its
/// own at a commit, same incoming side.
pub open spec fn mirrors(session: Session, mirror: Mirror) -> bool {
    &&& mirror.max_sent_bytes == session.config.max_sent_bytes
    &&& mirror.max_recv_bytes == session.config.max_recv_bytes
    &&& mirror.server_public_key_policy == session.config.server_public_key_policy
    &&& mirror.step == session.step
    &&& mirror.seq_out == session.seq_out
    &&& mirror.sent_bytes == session.sent_bytes
    &&& mirror.server_closed == session.server_closed
    &&& !(session.step == Step::Committed || session.step == Step::Closed) ==> {
        &&& mirror.seq_in == session.seq_in
        &&& mirror.recv_bytes == session.recv_bytes
        &&& mirror.buffer == payload_lengths(session.buffer)
    }
}

/// The bytes pending in a buffer depend on the payload lengths alone.
pub proof fn lemma_pending_by_lengths(buffer: Seq<Record>)
    ensures
        pending_bytes(buffer) == pending_lengths(payload_lengths(buffer)),
    decreases buffer.len(),
{
    if buffer.len() > 0 {
        lemma_pending_by_lengths(buffer.drop_last());
        assert(payload_lengths(buffer).drop_last() =~= payload_lengths(buffer.drop_last()));
    }
}

/// Draining changes neither the options nor the outgoing side of a session,
/// nor its step, nor what is known of the server's end.
pub proof fn lemma_drain_keeps(session: Session, from: nat)
    ensures
        session.drain(from) is Ok ==> {
            &&& session.drain(from)->Ok_0.config == session.config
            &&& session.drain(from)->Ok_0.step == session.step
            &&& session.drain(from)->Ok_0.seq_out == session.seq_out
            &&& session.drain(from)->Ok_0.sent_bytes == session.sent_bytes
            &&& session.drain(from)->Ok_0.server_closed == session.server_closed
        },
    decreases session.buffer.len() - from,
{
    reveal(Session::drain);
    if from < session.buffer.len() {
        match session.accept(session.buffer[from as int], session.seq_in) {
            Ok(plain) => {
                lemma_drain_keeps(session.received(plain), from + 1);
            },
            Err(_) => {},
        }
    }
}

/// The error of a status, if it is one.
pub open spec fn status_error(status: Result<(), MpcTlsError>) -> Option<MpcTlsError> {
    match status {
        Ok(_) => None,
        Err(error) => Some(error),
    }
}

/// The follower, sent the command of `msg`, answers as the leader does and
/// its view agrees with the leader's session afterwards.
pub open spec fn follows(session: Session, mirror: Mirror, msg: MpcTlsLeaderMsg) -> bool {
    &&& status_error(mirror.handle(command_for(msg, session)->Some_0).1) == msg.apply(
        session,
    ).1.error()
    &&& mirrors(msg.apply(session).0, mirror.handle(command_for(msg, session)->Some_0).0)
}

proof fn lemma_follows_buffering(session: Session, mirror: Mirror, msg: MpcTlsLeaderMsg)
    requires
        mirrors(session, mirror),
        msg is BackendMsgBufferIncoming,
    ensures
        follows(session, mirror, msg),
{
    lemma_pending_by_lengths(session.buffer);
    let record = msg->BackendMsgBufferIncoming_0.msg@;
    assert(payload_lengths(session.buffer.push(record)) =~= payload_lengths(session.buffer).push(
        record.payload.len(),
    ));
}

proof fn lemma_follows_handing_out(session: Session, mirror: Mirror, msg: MpcTlsLeaderMsg)
    requires
        mirrors(session, mirror),
        msg is BackendMsgNextIncoming,
    ensures
        follows(session, mirror, msg),
{
    if session.buffer.len() > 0 {
        assert(payload_lengths(session.buffer.drop_first()) =~= payload_lengths(
            session.buffer,
        ).drop_first());
    }
}

proof fn lemma_follows_commit(session: Session, mirror: Mirror, msg: MpcTlsLeaderMsg)
    requires
        mirrors(session, mirror),
        msg is Commit,
        !(msg.apply(session).1.error() is Some && msg.apply(session).1.error()->Some_0.is_fatal()),
    ensures
        follows(session, mirror, msg),
{
    lemma_drain_keeps(session, 0);
    crate::leader::laws::lemma_drain_errors(session, 0);
}

proof fn lemma_follows_otherwise(session: Session, mirror: Mirror, msg: MpcTlsLeaderMsg)
    requires
        mirrors(session, mirror),
        command_for(msg, session) is Some,
        !(msg is Commit || msg is BackendMsgNextIncoming || msg is BackendMsgBufferIncoming),
    ensures
        follows(session, mirror, msg),
{
    match msg {
        MpcTlsLeaderMsg::BackendMsgSetProtocolVersion(_) => {
            assert(follows(session, mirror, msg));
        },
        MpcTlsLeaderMsg::BackendMsgSetCipherSuite(_) => {
            assert(follows(session, mirror, msg));
        },
        MpcTlsLeaderMsg::BackendMsgGetSuite(_) => {
            assert(follows(session, mirror, msg));
        },
        MpcTlsLeaderMsg::BackendMsgSetEncrypt(_) => {
            assert(follows(session, mirror, msg));
        },
        MpcTlsLeaderMsg::BackendMsgSetDecrypt(_) => {
            assert(follows(session, mirror, msg));
        },
        MpcTlsLeaderMsg::BackendMsgGetClientRandom(_) => {
            assert(follows(session, mirror, msg));
        },
        MpcTlsLeaderMsg::BackendMsgGetClientKeyShare(_) => {
            assert(follows(session, mirror, msg));
        },
        MpcTlsLeaderMsg::BackendMsgSetServerRandom(_) => {
            assert(follows(session, mirror, msg));
        },
        MpcTlsLeaderMsg::BackendMsgSetServerKeyShare(_) => {
            assert(follows(session, mirror, msg));
        },
        MpcTlsLeaderMsg::BackendMsgSetServerCertDetails(_) => {
            assert(follows(session, mirror, msg));
        },
        MpcTlsLeaderMsg::BackendMsgSetServerKxDetails(_) => {
            assert(follows(session, mirror, msg));
        },
        MpcTlsLeaderMsg::BackendMsgSetHsHashClientKeyExchange(_) => {
            assert(follows(session, mirror, msg));
        },
        MpcTlsLeaderMsg::BackendMsgSetHsHashServerHello(_) => {
            assert(follows(session, mirror, msg));
        },
        MpcTlsLeaderMsg::BackendMsgGetServerFinishedVd(_) => {
            assert(follows(session, mirror, msg));
        },
        MpcTlsLeaderMsg::BackendMsgGetClientFinishedVd(_) => {
            assert(follows(session, mirror, msg));
        },
        MpcTlsLeaderMsg::BackendMsgPrepareEncryption(_) => {
            assert(follows(session, mirror, msg));
        },
        MpcTlsLeaderMsg::BackendMsgEncrypt(_) => {
            assert(follows(session, mirror, msg));
        },
        MpcTlsLeaderMsg::BackendMsgDecrypt(_) => {
            assert(follows(session, mirror, msg));
        },
        MpcTlsLeaderMsg::BackendMsgServerClosed(_) => {
            assert(follows(session, mirror, msg));
        },
        MpcTlsLeaderMsg::DeferDecryption(_) => {
            assert(follows(session, mirror, msg));
        },
        MpcTlsLeaderMsg::CloseConnection(_) => {
            assert(follows(session, mirror, msg));
        },
        _ => {},
    }
}

/// A follower whose view agrees with the leader's session, and that is sent
/// the command of each message the leader handles, answers as the leader
/// does, success or error, and its view agrees again afterwards. The one
/// exception is a commit that fails at the leader: the leader opens the
/// buffered records on its own, so what it finds there the follower does not
/// learn.
pub proof fn lemma_follower_follows(session: Session, mirror: Mirror, msg: MpcTlsLeaderMsg)
    requires
        mirrors(session, mirror),
        command_for(msg, session) is Some,
        !(msg is Commit && msg.apply(session).1.error() is Some && msg.apply(
            session,
        ).1.error()->Some_0.is_fatal()),
    ensures
        follows(session, mirror, msg),
{
    if msg is BackendMsgBufferIncoming {
        lemma_follows_buffering(session, mirror, msg);
    } else if msg is BackendMsgNextIncoming {
        lemma_follows_handing_out(session, mirror, msg);
    } else if msg is Commit {
        lemma_follows_commit(session, mirror, msg);
    } else {
        lemma_follows_otherwise(session, mirror, msg);
    }
}

} // verus!
