//! The leader: its session state and the handlers of the backend surface.

pub mod actor;
pub mod laws;
pub mod msg;
pub mod state;

use crate::bytes::{array16, array32, array4, array8, bytes_eq, copy_range, join};
use crate::cipher::Keystream;
use crate::decode::fresh_bytes;
use crate::error::{MpcTlsError, Phase, TlsRole};
use crate::leader::state::{
    pending_bytes, plaintext_len, Config, KeyPolicy, Session, SessionKeys, Step,
};
use crate::msgs::{
    explicit_nonce, make_aad, BackendNotify, DecryptMode, EncryptMode, NamedGroup, OpaqueMessage,
    PlainMessage, ProtocolVersion, PublicKey, Random, Record, ServerCertDetails, ServerKxDetails,
    SupportedCipherSuite, MAX_PLAINTEXT_LEN, RECORD_OVERHEAD,
};
use crate::prf;
use crate::record_layer::aead::{AesGcmDecrypt, AesGcmEncrypt};
use crate::record_layer::gcm::{ghash_for, open};
use crate::vm::Vm;
use vstd::prelude::*;

verus! {

/// Which server keys a session accepts.
#[derive(Debug, Clone)]
pub enum ServerPublicKeyPolicy {
    /// Any key the caller has validated.
    Any,
    /// Only the key with this subject public key info.
    Pinned(Vec<u8>),
}

/// Options shared by both roles.
#[derive(Debug, Clone)]
pub struct MpcTlsCommonConfig {
    pub max_sent_bytes: u32,
    pub max_recv_bytes: u32,
    pub server_public_key_policy: ServerPublicKeyPolicy,
}

/// Options of the leader.
#[derive(Debug, Clone)]
pub struct MpcTlsLeaderConfig {
    pub common: MpcTlsCommonConfig,
    pub defer_decryption_from_start: bool,
}

impl View for MpcTlsLeaderConfig {
    type V = Config;

    open spec fn view(&self) -> Config {
        Config {
            max_sent_bytes: self.common.max_sent_bytes as nat,
            max_recv_bytes: self.common.max_recv_bytes as nat,
            defer_decryption_from_start: self.defer_decryption_from_start,
            server_public_key_policy: match self.common.server_public_key_policy {
                ServerPublicKeyPolicy::Any => KeyPolicy::Any,
                ServerPublicKeyPolicy::Pinned(spki) => KeyPolicy::Pinned(spki@),
            },
        }
    }
}

/// What the key exchange yields for one session: the client's random, its
/// key share, and the secret agreed with the server.
#[derive(Debug, Clone)]
pub struct KeyMaterial {
    pub client_random: [u8; 32],
    pub client_key_share: Vec<u8>,
    pub pre_master_secret: Vec<u8>,
}

impl KeyMaterial {
    /// The key material of a session whose client random the leader draws
    /// itself, here and now.
    pub fn generate(client_key_share: Vec<u8>, pre_master_secret: Vec<u8>) -> (material:
        KeyMaterial)
        ensures
            material.client_key_share == client_key_share,
            material.pre_master_secret == pre_master_secret,
    {
        let random = fresh_bytes(32);
        KeyMaterial {
            client_random: array32(random.as_slice()),
            client_key_share,
            pre_master_secret,
        }
    }
}

/// What a closed session leaves behind: the records sent and received, in the
/// clear and in order, and whether the server closed its end.
#[derive(Debug)]
pub struct MpcTlsData {
    pub sent: Vec<PlainMessage>,
    pub received: Vec<PlainMessage>,
    pub server_closed: bool,
}

/// Records in the clear, as mathematical values.
pub open spec fn plain_records(messages: Seq<PlainMessage>) -> Seq<Record> {
    Seq::new(messages.len(), |i: int| messages[i]@)
}

/// Protected records, as mathematical values.
pub open spec fn opaque_records(messages: Seq<OpaqueMessage>) -> Seq<Record> {
    Seq::new(messages.len(), |i: int| messages[i]@)
}

/// The leader of a session.
#[derive(Debug)]
pub struct MpcTlsLeader {
    config: MpcTlsLeaderConfig,
    material: KeyMaterial,
    step: Step,
    vm: Vm,
    suite: SupportedCipherSuite,
    server_random: [u8; 32],
    master_secret: Vec<u8>,
    client_keystream: Keystream,
    server_keystream: Keystream,
    seq_out: u64,
    seq_in: u64,
    sent_bytes: u64,
    recv_bytes: u64,
    pending: u64,
    buffer: Vec<OpaqueMessage>,
    sent: Vec<PlainMessage>,
    received: Vec<PlainMessage>,
    server_closed: bool,
}

impl View for MpcTlsLeader {
    type V = Session;

    closed spec fn view(&self) -> Session {
        Session {
            config: self.config@,
            step: self.step,
            client_random: self.material.client_random@,
            client_key_share: self.material.client_key_share@,
            pre_master_secret: self.material.pre_master_secret@,
            suite: self.suite,
            server_random: self.server_random@,
            master_secret: self.master_secret@,
            keys: SessionKeys {
                client_write_key: self.client_keystream.key(),
                server_write_key: self.server_keystream.key(),
                client_write_iv: self.client_keystream.iv(),
                server_write_iv: self.server_keystream.iv(),
            },
            seq_out: self.seq_out,
            seq_in: self.seq_in,
            sent_bytes: self.sent_bytes as nat,
            recv_bytes: self.recv_bytes as nat,
            buffer: opaque_records(self.buffer@),
            sent: plain_records(self.sent@),
            received: plain_records(self.received@),
            server_closed: self.server_closed,
        }
    }
}

impl MpcTlsLeader {
    /// The machine is sound, the byte counts are within their budgets, and
    /// the count of pending bytes is that of the buffer.
    pub closed spec fn wf(&self) -> bool {
        &&& self.vm.wf()
        &&& self.sent_bytes <= self.config.common.max_sent_bytes
        &&& self.recv_bytes <= self.config.common.max_recv_bytes
        &&& self.pending <= self.config.common.max_recv_bytes
        &&& self.pending == pending_bytes(opaque_records(self.buffer@))
    }

    /// The session a leader starts from.
    pub open spec fn initial(config: Config, material: KeyMaterial) -> Session {
        Session {
            config,
            step: Step::Setup,
            client_random: material.client_random@,
            client_key_share: material.client_key_share@,
            pre_master_secret: material.pre_master_secret@,
            suite: SupportedCipherSuite::EcdheEcdsaWithAes128GcmSha256,
            server_random: Seq::new(32, |i: int| 0u8),
            master_secret: Seq::<u8>::empty(),
            keys: SessionKeys {
                client_write_key: Seq::new(16, |i: int| 0u8),
                server_write_key: Seq::new(16, |i: int| 0u8),
                client_write_iv: Seq::new(4, |i: int| 0u8),
                server_write_iv: Seq::new(4, |i: int| 0u8),
            },
            seq_out: 0,
            seq_in: 0,
            sent_bytes: 0,
            recv_bytes: 0,
            buffer: Seq::<Record>::empty(),
            sent: Seq::<Record>::empty(),
            received: Seq::<Record>::empty(),
            server_closed: false,
        }
    }

    /// Creates the leader of a session with the given options and key
    /// material.
    pub fn new(config: MpcTlsLeaderConfig, material: KeyMaterial) -> (leader: MpcTlsLeader)
        ensures
            leader.wf(),
            leader@ == MpcTlsLeader::initial(config@, material),
    {
        let leader = MpcTlsLeader {
            config,
            material,
            step: Step::Setup,
            vm: Vm::new(),
            suite: SupportedCipherSuite::EcdheEcdsaWithAes128GcmSha256,
            server_random: [0u8; 32],
            master_secret: Vec::new(),
            client_keystream: Keystream::new([0u8; 16], [0u8; 4]),
            server_keystream: Keystream::new([0u8; 16], [0u8; 4]),
            seq_out: 0,
            seq_in: 0,
            sent_bytes: 0,
            recv_bytes: 0,
            pending: 0,
            buffer: Vec::new(),
            sent: Vec::new(),
            received: Vec::new(),
            server_closed: false,
        };
        proof {
            assert(leader@.server_random =~= Seq::new(32, |i: int| 0u8));
            assert(leader@.keys.client_write_key =~= Seq::new(16, |i: int| 0u8));
            assert(leader@.keys.server_write_key =~= Seq::new(16, |i: int| 0u8));
            assert(leader@.keys.client_write_iv =~= Seq::new(4, |i: int| 0u8));
            assert(leader@.keys.server_write_iv =~= Seq::new(4, |i: int| 0u8));
            assert(leader@.buffer =~= Seq::<Record>::empty());
            assert(leader@.sent =~= Seq::<Record>::empty());
            assert(leader@.received =~= Seq::<Record>::empty());
            assert(leader@.master_secret =~= Seq::<u8>::empty());
        }
        leader
    }

    /// The refusal of an operation that belongs to `expected`.
    fn wrong_state(&self, expected: Phase) -> (error: MpcTlsError)
        ensures
            error == self@.wrong_state(expected),
    {
        MpcTlsError::InvalidState { expected, actual: self.step.get_phase() }
    }

    /// Where the session stands.
    pub fn step(&self) -> (step: Step)
        ensures
            step == self@.step,
    {
        self.step
    }

    /// The phase the session is in.
    pub fn phase(&self) -> (phase: Phase)
        ensures
            phase == self@.step.phase(),
    {
        self.step.get_phase()
    }

    /// The number the next outgoing record must carry.
    pub fn seq_out(&self) -> (seq: u64)
        ensures
            seq == self@.seq_out,
    {
        self.seq_out
    }

    /// The number the next incoming record must carry.
    pub fn seq_in(&self) -> (seq: u64)
        ensures
            seq == self@.seq_in,
    {
        self.seq_in
    }

    /// Completes the setup of the substrate.
    pub fn setup(&mut self) -> (reply: Result<(), MpcTlsError>)
        requires
            old(self).wf(),
        ensures
            final(self).wf(),
            (final(self)@, reply) == old(self)@.setup(),
    {
        if self.step != Step::Setup {
            return Err(self.wrong_state(Phase::Init));
        }
        self.step = Step::SetProtocolVersion;
        Ok(())
    }

    /// Sets the protocol version, which must be TLS 1.2.
    pub fn set_protocol_version(&mut self, version: ProtocolVersion) -> (reply: Result<
        (),
        MpcTlsError,
    >)
        requires
            old(self).wf(),
        ensures
            final(self).wf(),
            (final(self)@, reply) == old(self)@.set_protocol_version(version),
    {
        if self.step != Step::SetProtocolVersion {
            return Err(self.wrong_state(Phase::HandshakeSetup));
        }
        if version != ProtocolVersion::TLSv1_2 {
            self.step = Step::Failed;
            return Err(MpcTlsError::InvalidConfig);
        }
        self.step = Step::SetCipherSuite;
        Ok(())
    }

    /// Sets the cipher suite, which must be one with AES-128-GCM and SHA-256.
    pub fn set_cipher_suite(&mut self, suite: SupportedCipherSuite) -> (reply: Result<
        (),
        MpcTlsError,
    >)
        requires
            old(self).wf(),
        ensures
            final(self).wf(),
            (final(self)@, reply) == old(self)@.set_cipher_suite(suite),
    {
        if self.step != Step::SetCipherSuite {
            return Err(self.wrong_state(Phase::HandshakeSetup));
        }
        if !suite.supported() {
            self.step = Step::Failed;
            return Err(MpcTlsError::InvalidConfig);
        }
        self.suite = suite;
        self.step = Step::GetClientRandom;
        Ok(())
    }

    /// The cipher suite agreed.
    pub fn get_suite(&mut self) -> (reply: Result<SupportedCipherSuite, MpcTlsError>)
        requires
            old(self).wf(),
        ensures
            final(self).wf(),
            final(self)@ == old(self)@,
            reply == old(self)@.get_suite(),
    {
        match self.step {
            Step::Setup | Step::SetProtocolVersion | Step::SetCipherSuite | Step::Failed => Err(
                self.wrong_state(Phase::KeyExchange),
            ),
            _ => Ok(self.suite),
        }
    }

    /// Sets the mode of outgoing protection; the session takes note of nothing.
    pub fn set_encrypt(&mut self, mode: EncryptMode) -> (reply: Result<(), MpcTlsError>)
        requires
            old(self).wf(),
        ensures
            final(self).wf(),
            final(self)@ == old(self)@,
            reply == old(self)@.set_mode(),
    {
        if self.step == Step::Failed {
            return Err(self.wrong_state(Phase::Active));
        }
        Ok(())
    }

    /// Sets the mode of incoming protection; the session takes note of nothing.
    pub fn set_decrypt(&mut self, mode: DecryptMode) -> (reply: Result<(), MpcTlsError>)
        requires
            old(self).wf(),
        ensures
            final(self).wf(),
            final(self)@ == old(self)@,
            reply == old(self)@.set_mode(),
    {
        if self.step == Step::Failed {
            return Err(self.wrong_state(Phase::Active));
        }
        Ok(())
    }

    /// The client random.
    pub fn get_client_random(&mut self) -> (reply: Result<Random, MpcTlsError>)
        requires
            old(self).wf(),
        ensures
            final(self).wf(),
            final(self)@ == old(self)@.get_client_random().0,
            match reply {
                Ok(random) => old(self)@.get_client_random().1 == Ok::<Seq<u8>, MpcTlsError>(
                    random.0@,
                ),
                Err(error) => old(self)@.get_client_random().1 == Err::<Seq<u8>, MpcTlsError>(
                    error,
                ),
            },
    {
        if self.step != Step::GetClientRandom {
            return Err(self.wrong_state(Phase::KeyExchange));
        }
        self.step = Step::GetClientKeyShare;
        Ok(Random(self.material.client_random))
    }

    /// The client's key share, a point on P-256.
    pub fn get_client_key_share(&mut self) -> (reply: Result<PublicKey, MpcTlsError>)
        requires
            old(self).wf(),
        ensures
            final(self).wf(),
            final(self)@ == old(self)@.get_client_key_share().0,
            match reply {
                Ok(share) => share.group == NamedGroup::Secp256r1 && old(
                    self,
                )@.get_client_key_share().1 == Ok::<Seq<u8>, MpcTlsError>(share.key@),
                Err(error) => old(self)@.get_client_key_share().1 == Err::<Seq<u8>, MpcTlsError>(
                    error,
                ),
            },
    {
        if self.step != Step::GetClientKeyShare {
            return Err(self.wrong_state(Phase::KeyExchange));
        }
        self.step = Step::SetServerRandom;
        Ok(PublicKey { group: NamedGroup::Secp256r1, key: self.material.client_key_share.clone() })
    }

    /// Sets the server random.
    pub fn set_server_random(&mut self, random: Random) -> (reply: Result<(), MpcTlsError>)
        requires
            old(self).wf(),
        ensures
            final(self).wf(),
            (final(self)@, reply) == old(self)@.set_server_random(random.0@),
    {
        if self.step != Step::SetServerRandom {
            return Err(self.wrong_state(Phase::KeyExchange));
        }
        self.server_random = random.0;
        self.step = Step::SetServerKeyShare;
        Ok(())
    }

    /// Sets the server's key share, which closes the key exchange.
    pub fn set_server_key_share(&mut self, key: PublicKey) -> (reply: Result<(), MpcTlsError>)
        requires
            old(self).wf(),
        ensures
            final(self).wf(),
            (final(self)@, reply) == old(self)@.set_server_key_share(),
    {
        if self.step != Step::SetServerKeyShare {
            return Err(self.wrong_state(Phase::KeyExchange));
        }
        self.step = Step::SetServerCertDetails;
        Ok(())
    }

    /// Sets what the server presented as its identity.
    pub fn set_server_cert_details(&mut self, cert_details: ServerCertDetails) -> (reply: Result<
        (),
        MpcTlsError,
    >)
        requires
            old(self).wf(),
        ensures
            final(self).wf(),
            (final(self)@, reply) == old(self)@.set_server_cert_details(cert_details.spki@),
    {
        if self.step != Step::SetServerCertDetails {
            return Err(self.wrong_state(Phase::DeriveMasterSecret));
        }
        let accepted = match &self.config.common.server_public_key_policy {
            ServerPublicKeyPolicy::Any => true,
            ServerPublicKeyPolicy::Pinned(pinned) => bytes_eq(
                pinned.as_slice(),
                cert_details.spki.as_slice(),
            ),
        };
        if !accepted {
            self.step = Step::Failed;
            return Err(MpcTlsError::InvalidConfig);
        }
        self.step = Step::SetServerKxDetails;
        Ok(())
    }

    /// Sets the server's signed key exchange parameters.
    pub fn set_server_kx_details(&mut self, kx_details: ServerKxDetails) -> (reply: Result<
        (),
        MpcTlsError,
    >)
        requires
            old(self).wf(),
        ensures
            final(self).wf(),
            (final(self)@, reply) == old(self)@.set_server_kx_details(),
    {
        if self.step != Step::SetServerKxDetails {
            return Err(self.wrong_state(Phase::DeriveMasterSecret));
        }
        self.step = Step::SetHsHashClientKeyExchange;
        Ok(())
    }

    /// Sets the handshake hash up to the client's key exchange, from which the
    /// session keys are derived.
    pub fn set_hs_hash_client_key_exchange(&mut self, hash: Vec<u8>) -> (reply: Result<
        (),
        MpcTlsError,
    >)
        requires
            old(self).wf(),
        ensures
            final(self).wf(),
            (final(self)@, reply) == old(self)@.set_hs_hash_client_key_exchange(hash@),
    {
        if self.step != Step::SetHsHashClientKeyExchange {
            return Err(self.wrong_state(Phase::DeriveMasterSecret));
        }
        let master_secret = prf::master_secret(
            self.material.pre_master_secret.as_slice(),
            hash.as_slice(),
        );
        let block = prf::key_block(
            master_secret.as_slice(),
            self.server_random.as_slice(),
            self.material.client_random.as_slice(),
        );
        let block = block.as_slice();
        self.client_keystream = Keystream::new(array16(block, 0), array4(block, 32));
        self.server_keystream = Keystream::new(array16(block, 16), array4(block, 36));
        self.master_secret = master_secret;
        self.step = Step::GetClientFinishedVd;
        Ok(())
    }

    /// The client's Finished verify data for the handshake hash `hash`.
    pub fn get_client_finished_vd(&mut self, hash: Vec<u8>) -> (reply: Result<Vec<u8>, MpcTlsError>)
        requires
            old(self).wf(),
        ensures
            final(self).wf(),
            final(self)@ == old(self)@.get_client_finished_vd(hash@).0,
            match reply {
                Ok(verify_data) => old(self)@.get_client_finished_vd(hash@).1 == Ok::<
                    Seq<u8>,
                    MpcTlsError,
                >(verify_data@),
                Err(error) => old(self)@.get_client_finished_vd(hash@).1 == Err::<
                    Seq<u8>,
                    MpcTlsError,
                >(error),
            },
    {
        if self.step != Step::GetClientFinishedVd {
            return Err(self.wrong_state(Phase::ClientFinished));
        }
        let verify_data = prf::client_finished(self.master_secret.as_slice(), hash.as_slice());
        self.step = Step::SetHsHashServerHello;
        Ok(verify_data)
    }

    /// Sets the handshake hash up to the server hello.
    pub fn set_hs_hash_server_hello(&mut self, hash: Vec<u8>) -> (reply: Result<(), MpcTlsError>)
        requires
            old(self).wf(),
        ensures
            final(self).wf(),
            (final(self)@, reply) == old(self)@.set_hs_hash_server_hello(),
    {
        if self.step != Step::SetHsHashServerHello {
            return Err(self.wrong_state(Phase::ServerFinished));
        }
        self.step = Step::GetServerFinishedVd;
        Ok(())
    }

    /// The server's Finished verify data for the handshake hash `hash`.
    pub fn get_server_finished_vd(&mut self, hash: Vec<u8>) -> (reply: Result<Vec<u8>, MpcTlsError>)
        requires
            old(self).wf(),
        ensures
            final(self).wf(),
            final(self)@ == old(self)@.get_server_finished_vd(hash@).0,
            match reply {
                Ok(verify_data) => old(self)@.get_server_finished_vd(hash@).1 == Ok::<
                    Seq<u8>,
                    MpcTlsError,
                >(verify_data@),
                Err(error) => old(self)@.get_server_finished_vd(hash@).1 == Err::<
                    Seq<u8>,
                    MpcTlsError,
                >(error),
            },
    {
        if self.step != Step::GetServerFinishedVd {
            return Err(self.wrong_state(Phase::ServerFinished));
        }
        let verify_data = prf::server_finished(self.master_secret.as_slice(), hash.as_slice());
        self.step = Step::PrepareEncryption;
        Ok(verify_data)
    }

    /// Makes the record layer ready, after which records flow.
    pub fn prepare_encryption(&mut self) -> (reply: Result<(), MpcTlsError>)
        requires
            old(self).wf(),
        ensures
            final(self).wf(),
            (final(self)@, reply) == old(self)@.prepare_encryption(),
    {
        if self.step != Step::PrepareEncryption {
            return Err(self.wrong_state(Phase::ServerFinished));
        }
        if self.config.defer_decryption_from_start {
            self.step = Step::DeferredDecrypt;
        } else {
            self.step = Step::Active;
        }
        Ok(())
    }
}

/// Adding a record to a buffer adds the plaintext it carries to the bytes
/// pending.
pub proof fn lemma_pending_push(buffer: Seq<Record>, record: Record)
    ensures
        pending_bytes(buffer.push(record)) == pending_bytes(buffer) + plaintext_len(
            record.payload.len(),
        ),
{
    assert(buffer.push(record).drop_last() =~= buffer);
}

/// Taking the oldest record off a buffer takes the plaintext it carries off
/// the bytes pending.
pub proof fn lemma_pending_drop_first(buffer: Seq<Record>)
    requires
        buffer.len() > 0,
    ensures
        pending_bytes(buffer) == pending_bytes(buffer.drop_first()) + plaintext_len(
            buffer[0].payload.len(),
        ),
    decreases buffer.len(),
{
    if buffer.len() == 1 {
        assert(buffer.drop_last() =~= Seq::<Record>::empty());
        assert(buffer.drop_first() =~= Seq::<Record>::empty());
    } else {
        lemma_pending_drop_first(buffer.drop_last());
        assert(buffer.drop_first().drop_last() =~= buffer.drop_last().drop_first());
    }
}

impl MpcTlsLeader {
    /// Number of records waiting in the buffer.
    pub fn buffer_len(&mut self) -> (reply: Result<usize, MpcTlsError>)
        requires
            old(self).wf(),
        ensures
            final(self).wf(),
            final(self)@ == old(self)@,
            match reply {
                Ok(len) => old(self)@.buffer_len() == Ok::<nat, MpcTlsError>(len as nat),
                Err(error) => old(self)@.buffer_len() == Err::<nat, MpcTlsError>(error),
            },
    {
        if self.step == Step::Failed {
            return Err(self.wrong_state(Phase::Active));
        }
        Ok(self.buffer.len())
    }

    /// Tells whether a buffered record can be handed out.
    pub fn get_notify(&mut self) -> (reply: Result<BackendNotify, MpcTlsError>)
        requires
            old(self).wf(),
        ensures
            final(self).wf(),
            final(self)@ == old(self)@,
            reply == old(self)@.get_notify(),
    {
        if self.step == Step::Failed {
            return Err(self.wrong_state(Phase::Active));
        }
        Ok(BackendNotify { ready: self.step == Step::Active && self.buffer.len() > 0 })
    }

    /// Takes note that the server closed its end.
    pub fn server_closed(&mut self) -> (reply: Result<(), MpcTlsError>)
        requires
            old(self).wf(),
        ensures
            final(self).wf(),
            (final(self)@, reply) == old(self)@.server_closed(),
    {
        match self.step {
            Step::Active | Step::Committed => {
                self.server_closed = true;
                self.step = Step::Closed;
                Ok(())
            },
            Step::DeferredDecrypt => {
                self.server_closed = true;
                Ok(())
            },
            _ => Err(self.wrong_state(Phase::Active)),
        }
    }

    /// Defers decryption of any incoming messages.
    pub fn defer_decryption(&mut self) -> (reply: Result<(), MpcTlsError>)
        requires
            old(self).wf(),
        ensures
            final(self).wf(),
            (final(self)@, reply) == old(self)@.defer_decryption(),
    {
        if self.step != Step::Active {
            return Err(self.wrong_state(Phase::Active));
        }
        self.step = Step::DeferredDecrypt;
        Ok(())
    }

    /// Closes the connection.
    pub fn close_connection(&mut self) -> (reply: Result<(), MpcTlsError>)
        requires
            old(self).wf(),
        ensures
            final(self).wf(),
            (final(self)@, reply) == old(self)@.close_connection(),
    {
        match self.step {
            Step::Active | Step::DeferredDecrypt | Step::Committed => {
                self.step = Step::Closed;
                Ok(())
            },
            _ => Err(self.wrong_state(Phase::Active)),
        }
    }

    /// Puts a protected record into the buffer, for as long as the budget of bytes
    /// received covers everything buffered.
    pub fn buffer_incoming(&mut self, msg: OpaqueMessage) -> (reply: Result<(), MpcTlsError>)
        requires
            old(self).wf(),
        ensures
            final(self).wf(),
            (final(self)@, reply) == old(self)@.buffer_incoming(msg@),
    {
        match self.step {
            Step::Active | Step::DeferredDecrypt => {},
            _ => {
                return Err(self.wrong_state(Phase::Active));
            },
        }
        let len = msg.payload.len();
        let carried: usize = if len >= RECORD_OVERHEAD {
            len - RECORD_OVERHEAD
        } else {
            0
        };
        let room: u64 = self.config.common.max_recv_bytes as u64;
        if carried as u64 > room || self.recv_bytes + self.pending > room - carried as u64 {
            self.step = Step::Failed;
            return Err(MpcTlsError::Capacity);
        }
        proof {
            lemma_pending_push(opaque_records(self.buffer@), msg@);
            assert(opaque_records(self.buffer@.push(msg)) =~= opaque_records(self.buffer@).push(
                msg@,
            ));
        }
        self.pending = self.pending + carried as u64;
        self.buffer.push(msg);
        Ok(())
    }

    /// Hands out the oldest buffered record. While decryption is deferred the
    /// records are held back.
    pub fn next_incoming(&mut self) -> (reply: Result<Option<OpaqueMessage>, MpcTlsError>)
        requires
            old(self).wf(),
        ensures
            final(self).wf(),
            final(self)@ == old(self)@.next_incoming().0,
            match reply {
                Ok(Some(msg)) => old(self)@.next_incoming().1 == Ok::<Option<Record>, MpcTlsError>(
                    Some(msg@),
                ),
                Ok(None) => old(self)@.next_incoming().1 == Ok::<Option<Record>, MpcTlsError>(None),
                Err(error) => old(self)@.next_incoming().1 == Err::<Option<Record>, MpcTlsError>(
                    error,
                ),
            },
    {
        match self.step {
            Step::Active => {},
            Step::DeferredDecrypt => {
                return Ok(None);
            },
            _ => {
                return Err(self.wrong_state(Phase::Active));
            },
        }
        if self.buffer.len() == 0 {
            return Ok(None);
        }
        proof {
            lemma_pending_drop_first(opaque_records(self.buffer@));
            assert(opaque_records(self.buffer@.remove(0)) =~= opaque_records(
                self.buffer@,
            ).drop_first());
        }
        let msg = self.buffer.remove(0);
        let len = msg.payload.len();
        let carried: usize = if len >= RECORD_OVERHEAD {
            len - RECORD_OVERHEAD
        } else {
            0
        };
        self.pending = self.pending - carried as u64;
        Ok(Some(msg))
    }
}

impl MpcTlsLeader {
    /// Protects an outgoing record: the two parties compute its ciphertext
    /// and tag in the machine, and the explicit nonce goes in front.
    pub fn encrypt(&mut self, msg: PlainMessage, seq: u64) -> (reply: Result<
        OpaqueMessage,
        MpcTlsError,
    >)
        requires
            old(self).wf(),
        ensures
            final(self).wf(),
            final(self)@ == old(self)@.encrypt(msg@, seq).0,
            match reply {
                Ok(opaque) => old(self)@.encrypt(msg@, seq).1 == Ok::<Record, MpcTlsError>(opaque@),
                Err(error) => old(self)@.encrypt(msg@, seq).1 == Err::<Record, MpcTlsError>(error),
            },
    {
        match self.step {
            Step::Active | Step::DeferredDecrypt => {},
            _ => {
                return Err(self.wrong_state(Phase::Active));
            },
        }
        if seq != self.seq_out {
            self.step = Step::Failed;
            return Err(MpcTlsError::Internal);
        }
        let len = msg.payload.len();
        let room = self.config.common.max_sent_bytes as u64 - self.sent_bytes;
        if len > MAX_PLAINTEXT_LEN || len as u64 > room || seq == u64::MAX {
            self.step = Step::Failed;
            return Err(MpcTlsError::Capacity);
        }
        let typ = msg.typ;
        let version = msg.version;
        let nonce = explicit_nonce(seq);
        let aad = make_aad(seq, typ, version, len as u16);
        let plaintext_ref = self.vm.alloc_vec(len);
        let mut encrypter = AesGcmEncrypt::new(
            TlsRole::Leader,
            self.client_keystream,
            ghash_for(&self.client_keystream),
        );
        let plaintext = msg.payload.clone();
        let prepared = encrypter.encrypt(&mut self.vm, plaintext_ref, nonce, plaintext, aad);
        assert(prepared is Ok);
        let prepared = match prepared {
            Ok(prepared) => prepared,
            Err(error) => {
                self.step = Step::Failed;
                return Err(error);
            },
        };
        let wrap = |ciphertext: Vec<u8>| -> (message: OpaqueMessage)
            ensures
                message@ == (Record { typ, version, payload: ciphertext@ }),
            { OpaqueMessage { typ, version, payload: ciphertext } };
        let sealed = prepared.map_cipher(wrap).compute();
        assert(sealed is Ok);
        let sealed = match sealed {
            Ok(sealed) => sealed,
            Err(error) => {
                self.step = Step::Failed;
                return Err(error);
            },
        };
        let payload = join(nonce.as_slice(), sealed.payload.as_slice());
        proof {
            assert(plain_records(self.sent@.push(msg)) =~= plain_records(self.sent@).push(msg@));
        }
        self.seq_out = self.seq_out + 1;
        self.sent_bytes = self.sent_bytes + len as u64;
        self.sent.push(msg);
        Ok(OpaqueMessage { typ, version, payload })
    }
}

impl MpcTlsLeader {
    /// Takes in a protected record: the two parties decrypt it in the
    /// machine, check its tag, and the plaintext is revealed to the leader
    /// alone.
    pub fn decrypt(&mut self, msg: OpaqueMessage, seq: u64) -> (reply: Result<
        PlainMessage,
        MpcTlsError,
    >)
        requires
            old(self).wf(),
        ensures
            final(self).wf(),
            final(self)@ == old(self)@.decrypt(msg@, seq).0,
            match reply {
                Ok(plain) => old(self)@.decrypt(msg@, seq).1 == Ok::<Record, MpcTlsError>(plain@),
                Err(error) => old(self)@.decrypt(msg@, seq).1 == Err::<Record, MpcTlsError>(error),
            },
    {
        if self.step != Step::Active {
            return Err(self.wrong_state(Phase::Active));
        }
        if seq != self.seq_in {
            self.step = Step::Failed;
            return Err(MpcTlsError::Internal);
        }
        let len = msg.payload.len();
        if len < RECORD_OVERHEAD {
            self.step = Step::Failed;
            return Err(MpcTlsError::AeadTagMismatch);
        }
        let carried = len - RECORD_OVERHEAD;
        let room = self.config.common.max_recv_bytes as u64 - self.recv_bytes;
        if carried > MAX_PLAINTEXT_LEN || carried as u64 > room || seq == u64::MAX {
            self.step = Step::Failed;
            return Err(MpcTlsError::Capacity);
        }
        let typ = msg.typ;
        let version = msg.version;
        let payload = msg.payload.as_slice();
        let nonce = array8(payload, 0);
        let ciphertext = copy_range(payload, 8, len - 16);
        let tag = copy_range(payload, len - 16, len);
        let aad = make_aad(seq, typ, version, carried as u16);
        let mut decrypter = AesGcmDecrypt::new(
            TlsRole::Leader,
            self.server_keystream,
            ghash_for(&self.server_keystream),
        );
        let prepared = decrypter.decrypt(&mut self.vm, nonce, ciphertext, aad, tag);
        assert(prepared is Ok);
        let (prepared, plaintext_ref) = match prepared {
            Ok(prepared) => prepared,
            Err(error) => {
                self.step = Step::Failed;
                return Err(error);
            },
        };
        let revealed = prepared.private(&mut self.vm);
        assert(revealed is Ok);
        let revealed = match revealed {
            Ok(revealed) => revealed,
            Err(error) => {
                self.step = Step::Failed;
                return Err(error);
            },
        };
        let wrap = |plaintext: Option<Vec<u8>>| -> (message: Option<PlainMessage>)
            ensures
                match plaintext {
                    Some(bytes) => message is Some && message->Some_0@ == (Record {
                        typ,
                        version,
                        payload: bytes@,
                    }),
                    None => message is None,
                },
            {
                match plaintext {
                    Some(bytes) => Some(PlainMessage { typ, version, payload: bytes }),
                    None => None,
                }
            };
        let plain = match revealed.map_plain(wrap).compute() {
            Ok(Some(plain)) => plain,
            Ok(None) => {
                self.step = Step::Failed;
                return Err(MpcTlsError::Internal);
            },
            Err(error) => {
                self.step = Step::Failed;
                return Err(error);
            },
        };
        let kept = PlainMessage { typ, version, payload: plain.payload.clone() };
        proof {
            assert(kept@ == plain@);
            assert(plain_records(self.received@.push(kept)) =~= plain_records(self.received@).push(
                plain@,
            ));
        }
        self.seq_in = self.seq_in + 1;
        self.recv_bytes = self.recv_bytes + carried as u64;
        self.received.push(kept);
        Ok(plain)
    }
}

/// Draining from record `from` is opening that record and draining from the
/// next one, or ends with the reason that record is refused for.
pub proof fn lemma_drain_step(session: Session, from: nat)
    requires
        from < session.buffer.len(),
    ensures
        session.drain(from) == match session.accept(session.buffer[from as int], session.seq_in) {
            Err(error) => Err::<Session, MpcTlsError>(error),
            Ok(plain) => session.received(plain).drain(from + 1),
        },
{
    reveal(Session::drain);
}

/// Draining from past the last record empties the buffer and changes nothing
/// else.
pub proof fn lemma_drain_end(session: Session, from: nat)
    requires
        from >= session.buffer.len(),
    ensures
        session.drain(from) == Ok::<Session, MpcTlsError>(
            Session { buffer: Seq::<Record>::empty(), ..session },
        ),
{
    reveal(Session::drain);
}

impl MpcTlsLeader {
    /// Opens one buffered record locally, under the server write key, as the
    /// record numbered `seq` of a session that has received `recv_bytes`.
    fn open_buffered(&self, index: usize, seq: u64, recv_bytes: u64, Ghost(session): Ghost<Session>)
        -> (outcome: Result<PlainMessage, MpcTlsError>)
        requires
            index < self.buffer@.len(),
            session.config == self@.config,
            session.keys == self@.keys,
            session.seq_in == seq,
            session.recv_bytes == recv_bytes,
            recv_bytes <= self.config.common.max_recv_bytes,
        ensures
            match outcome {
                Ok(plain) => {
                    &&& session.accept(self@.buffer[index as int], seq) == Ok::<
                        Record,
                        MpcTlsError,
                    >(plain@)
                    &&& seq < u64::MAX
                    &&& recv_bytes + plain.payload@.len() <= self.config.common.max_recv_bytes
                },
                Err(error) => session.accept(self@.buffer[index as int], seq) == Err::<
                    Record,
                    MpcTlsError,
                >(error),
            },
    {
        let msg = &self.buffer[index];
        let len = msg.payload.len();
        if len < RECORD_OVERHEAD {
            return Err(MpcTlsError::AeadTagMismatch);
        }
        let carried = len - RECORD_OVERHEAD;
        let room = self.config.common.max_recv_bytes as u64 - recv_bytes;
        if carried > MAX_PLAINTEXT_LEN || carried as u64 > room || seq == u64::MAX {
            return Err(MpcTlsError::Capacity);
        }
        let payload = msg.payload.as_slice();
        let nonce = array8(payload, 0);
        let ciphertext = copy_range(payload, 8, len - 16);
        let tag = copy_range(payload, len - 16, len);
        let aad = make_aad(seq, msg.typ, msg.version, carried as u16);
        match open(&self.server_keystream, &nonce, &aad, &ciphertext, tag.as_slice()) {
            Ok(plaintext) => Ok(
                PlainMessage { typ: msg.typ, version: msg.version, payload: plaintext },
            ),
            Err(error) => Err(error),
        }
    }

    /// Opens every buffered record locally, oldest first: the records in the
    /// clear with the counters after the last of them, or the reason the
    /// first refused record is refused for.
    fn drain_buffer(&self) -> (outcome: Result<(u64, u64, Vec<PlainMessage>), MpcTlsError>)
        requires
            self.wf(),
        ensures
            match outcome {
                Ok((seq_in, recv_bytes, opened)) => {
                    &&& recv_bytes <= self.config.common.max_recv_bytes
                    &&& self@.drain(0) == Ok::<Session, MpcTlsError>(
                        Session {
                            seq_in,
                            recv_bytes: recv_bytes as nat,
                            received: self@.received + plain_records(opened@),
                            buffer: Seq::<Record>::empty(),
                            ..self@
                        },
                    )
                },
                Err(error) => self@.drain(0) == Err::<Session, MpcTlsError>(error),
            },
    {
        let ghost start = self@;
        let mut seq = self.seq_in;
        let mut recv_bytes = self.recv_bytes;
        let mut opened: Vec<PlainMessage> = Vec::new();
        let mut index: usize = 0;
        proof {
            assert(start.received + plain_records(opened@) =~= start.received);
            assert((Session {
                seq_in: seq,
                recv_bytes: recv_bytes as nat,
                received: start.received + plain_records(opened@),
                ..start
            }) == start);
        }
        while index < self.buffer.len()
            invariant
                start == self@,
                index <= self.buffer@.len(),
                start.buffer.len() == self.buffer@.len(),
                recv_bytes <= self.config.common.max_recv_bytes,
                (Session {
                    seq_in: seq,
                    recv_bytes: recv_bytes as nat,
                    received: start.received + plain_records(opened@),
                    ..start
                }).drain(index as nat) == start.drain(0),
            decreases self.buffer@.len() - index,
        {
            let ghost current = Session {
                seq_in: seq,
                recv_bytes: recv_bytes as nat,
                received: start.received + plain_records(opened@),
                ..start
            };
            proof {
                lemma_drain_step(current, index as nat);
            }
            let plain = match self.open_buffered(index, seq, recv_bytes, Ghost(current)) {
                Ok(plain) => plain,
                Err(error) => {
                    return Err(error);
                },
            };
            proof {
                assert(start.received + plain_records(opened@.push(plain)) =~= (start.received
                    + plain_records(opened@)).push(plain@));
                assert(current.received(plain@) == (Session {
                    seq_in: (seq + 1) as u64,
                    recv_bytes: (recv_bytes + plain.payload@.len()) as nat,
                    received: start.received + plain_records(opened@.push(plain)),
                    ..start
                }));
            }
            seq = seq + 1;
            recv_bytes = recv_bytes + plain.payload.len() as u64;
            opened.push(plain);
            index += 1;
        }
        proof {
            lemma_drain_end(
                Session {
                    seq_in: seq,
                    recv_bytes: recv_bytes as nat,
                    received: start.received + plain_records(opened@),
                    ..start
                },
                index as nat,
            );
        }
        Ok((seq, recv_bytes, opened))
    }

    /// Commits the leader to the current transcript.
    ///
    /// The server write key is revealed to the leader, which opens with it
    /// every record still buffered, oldest first. After that nothing more is
    /// sent or received.
    pub fn commit(&mut self) -> (reply: Result<(), MpcTlsError>)
        requires
            old(self).wf(),
        ensures
            final(self).wf(),
            (final(self)@, reply) == old(self)@.commit(),
    {
        match self.step {
            Step::Active | Step::DeferredDecrypt => {},
            _ => {
                return Err(self.wrong_state(Phase::Active));
            },
        }
        let (seq_in, recv_bytes, mut opened) = match self.drain_buffer() {
            Ok(drained) => drained,
            Err(error) => {
                self.step = Step::Failed;
                return Err(error);
            },
        };
        proof {
            assert(plain_records(self.received@ + opened@) =~= self@.received + plain_records(
                opened@,
            ));
            assert(opaque_records(Seq::<OpaqueMessage>::empty()) =~= Seq::<Record>::empty());
            assert(pending_bytes(Seq::<Record>::empty()) == 0);
        }
        self.seq_in = seq_in;
        self.recv_bytes = recv_bytes;
        self.received.append(&mut opened);
        self.buffer.clear();
        self.pending = 0;
        self.step = Step::Committed;
        Ok(())
    }

    /// Ends the leader: a closed session hands over what it captured, any
    /// other refuses.
    pub fn stopped(self) -> (outcome: Result<MpcTlsData, MpcTlsError>)
        ensures
            match outcome {
                Ok(data) => {
                    &&& self@.step == Step::Closed
                    &&& plain_records(data.sent@) == self@.sent
                    &&& plain_records(data.received@) == self@.received
                    &&& data.server_closed == self@.server_closed
                },
                Err(error) => self@.step != Step::Closed && error == self@.wrong_state(
                    Phase::Closed,
                ),
            },
    {
        if self.step != Step::Closed {
            return Err(self.wrong_state(Phase::Closed));
        }
        Ok(
            MpcTlsData {
                sent: self.sent,
                received: self.received,
                server_closed: self.server_closed,
            },
        )
    }
}

} // verus!
