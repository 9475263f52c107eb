//! Roles, phases and the errors of the session engine.

use vstd::prelude::*;

verus! {

/// Which of the two parties this is.
#[derive(Debug, Clone, Copy, PartialEq, Eq, Structural)]
pub enum TlsRole {
    /// Owns the TLS session and sees plaintext.
    Leader,
    /// Assists and never sees plaintext.
    Follower,
}

/// The phases a session passes through, in order, and the terminal error
/// state.
#[derive(Debug, Clone, Copy, PartialEq, Eq, Structural)]
pub enum Phase {
    Init,
    HandshakeSetup,
    KeyExchange,
    DeriveMasterSecret,
    DeriveKeys,
    ClientFinished,
    ServerFinished,
    Active,
    DeferredDecrypt,
    Committed,
    Closed,
    /// Entered on any fatal error; nothing leaves it.
    Failed,
}

/// What the virtual machine refuses.
#[derive(Debug, Clone, Copy, PartialEq, Eq, Structural)]
pub enum VmError {
    /// The reference names no region of this machine.
    UnknownReference,
    /// The value offered does not have the region's length.
    LengthMismatch,
    /// The region already holds a value.
    AlreadyAssigned,
    /// The message needs more counter values than one nonce has.
    CounterExhausted,
}

/// Why a value could not be revealed.
#[derive(Debug, Clone, Copy, PartialEq, Eq, Structural)]
pub enum DecodeError {
    /// The reference names no region of this machine.
    UnknownReference,
    /// The region holds no value yet.
    Unassigned,
}

/// What went wrong on the channel to the peer.
#[derive(Debug, Clone, Copy, PartialEq, Eq, Structural)]
pub enum IoError {
    /// The mailbox or the channel is closed.
    Closed,
    /// A frame could not be read.
    Framing,
}

/// What the peer did that the protocol does not allow.
#[derive(Debug, Clone, Copy, PartialEq, Eq, Structural)]
pub enum Misbehavior {
    /// A message arrived that the current phase does not expect.
    UnexpectedMessage,
    /// A share does not fit the values already exchanged.
    InconsistentShare,
}

/// Errors of the session engine.
#[derive(Debug, Clone, Copy, PartialEq, Eq, Structural)]
pub enum MpcTlsError {
    /// The operation was called in the wrong phase.
    InvalidState { expected: Phase, actual: Phase },
    /// Unsupported protocol version or cipher suite.
    InvalidConfig,
    /// A byte budget, the record counter or the buffer is exhausted.
    Capacity,
    /// The peer broke the protocol.
    PeerMisbehaved { reason: Misbehavior },
    /// A record failed authentication.
    AeadTagMismatch,
    /// Transport closed or framing error.
    Io { cause: IoError },
    /// The virtual machine reported a failure.
    Vm { cause: VmError },
    /// A shared value could not be decoded.
    Decode { cause: DecodeError },
    /// An invariant was violated.
    Internal,
}

impl MpcTlsError {
    /// Wraps a failure of the virtual machine.
    pub fn vm(cause: VmError) -> (error: MpcTlsError)
        ensures
            error == (MpcTlsError::Vm { cause }),
    {
        MpcTlsError::Vm { cause }
    }

    /// Wraps a failed decode.
    pub fn decode(cause: DecodeError) -> (error: MpcTlsError)
        ensures
            error == (MpcTlsError::Decode { cause }),
    {
        MpcTlsError::Decode { cause }
    }

    /// Wraps a transport failure.
    pub fn io(cause: IoError) -> (error: MpcTlsError)
        ensures
            error == (MpcTlsError::Io { cause }),
    {
        MpcTlsError::Io { cause }
    }

    /// Every error but a call in the wrong phase ends the session.
    pub open spec fn is_fatal(&self) -> bool {
        !(self is InvalidState)
    }

    /// Tells whether this error ends the session.
    pub fn fatal(&self) -> (fatal: bool)
        ensures
            fatal == self.is_fatal(),
    {
        match self {
            MpcTlsError::InvalidState { .. } => false,
            _ => true,
        }
    }

    /// The text that stands for this kind of error.
    pub open spec fn message(&self) -> Seq<char> {
        match self {
            MpcTlsError::InvalidState { .. } => "invalid state"@,
            MpcTlsError::InvalidConfig => "invalid configuration"@,
            MpcTlsError::Capacity => "capacity exceeded"@,
            MpcTlsError::PeerMisbehaved { .. } => "peer misbehaved"@,
            MpcTlsError::AeadTagMismatch => "tag mismatch"@,
            MpcTlsError::Io { .. } => "io error"@,
            MpcTlsError::Vm { .. } => "vm error"@,
            MpcTlsError::Decode { .. } => "decode error"@,
            MpcTlsError::Internal => "internal error"@,
        }
    }

    /// A short text naming the kind of error.
    pub fn to_string(&self) -> (text: String)
        ensures
            text@ == self.message(),
    {
        match self {
            MpcTlsError::InvalidState { .. } => "invalid state".to_owned(),
            MpcTlsError::InvalidConfig => "invalid configuration".to_owned(),
            MpcTlsError::Capacity => "capacity exceeded".to_owned(),
            MpcTlsError::PeerMisbehaved { .. } => "peer misbehaved".to_owned(),
            MpcTlsError::AeadTagMismatch => "tag mismatch".to_owned(),
            MpcTlsError::Io { .. } => "io error".to_owned(),
            MpcTlsError::Vm { .. } => "vm error".to_owned(),
            MpcTlsError::Decode { .. } => "decode error".to_owned(),
            MpcTlsError::Internal => "internal error".to_owned(),
        }
    }
}

/// The error a TLS client sees from its backend: a generic failure with a
/// textual cause.
#[derive(Debug, Clone)]
pub enum BackendError {
    InternalError(String),
}

impl BackendError {
    /// The textual cause.
    pub open spec fn cause(&self) -> Seq<char> {
        match self {
            BackendError::InternalError(text) => text@,
        }
    }

    /// The backend error that reports `error` to the TLS client.
    pub fn from_engine(error: MpcTlsError) -> (reported: BackendError)
        ensures
            reported.cause() == error.message(),
    {
        BackendError::InternalError(error.to_string())
    }
}

} // verus!
