//! Engine of a two-party TLS 1.2 session, in which a leader and a follower
//! run the client side of the connection together so that neither holds the
//! session keys alone.
//!
//! - [`leader`]: the leader's phase machine, the handlers of the backend
//!   surface a TLS client drives it through, and the mailbox in front of
//!   them.
//! - [`follower`]: the follower's view of the same session, kept up by the
//!   leader's commands.
//! - [`record_layer`]: AES-128-GCM on records, prepared in the joint machine
//!   and computed later, beside the same computation by a single party.
//! - [`cipher`], [`prf`], [`decode`], [`vm`]: what the record layer and the
//!   handshake stand on.
//! - [`ot`]: the oblivious-transfer extension.
//! - [`tee`]: the enclave quote the attestation service publishes.
//!
//! What the two parties hold as shares is modelled by the value the shares
//! stand for: the machine of [`vm`] is the two parties' machines seen as one,
//! a key is the key both shares add up to. Every contract so states what the
//! joint computation yields, not how the parties arrive at it.

pub mod bytes;
pub mod cipher;
pub mod decode;
pub mod error;
pub mod follower;
pub mod leader;
pub mod msgs;
pub mod ot;
pub mod prf;
pub mod record_layer;
pub mod tee;
pub mod vm;
