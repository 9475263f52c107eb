//! The TLS values that cross the backend surface.

use vstd::prelude::*;

verus! {

/// Bytes a protected record is longer than its plaintext: eight of explicit
/// nonce in front, sixteen of tag behind.
pub const RECORD_OVERHEAD: usize = 24;

/// Longest plaintext a record can carry: its length must fit the two bytes
/// the additional authenticated data has for it.
pub const MAX_PLAINTEXT_LEN: usize = 0xffff;

/// Protocol version on the wire.
#[derive(Debug, Clone, Copy, PartialEq, Eq, Structural)]
pub enum ProtocolVersion {
    SSLv2,
    SSLv3,
    TLSv1_0,
    TLSv1_1,
    TLSv1_2,
    TLSv1_3,
    Unknown(u16),
}

impl ProtocolVersion {
    /// The two-byte code of the version.
    pub open spec fn code(&self) -> u16 {
        match self {
            ProtocolVersion::SSLv2 => 0x0200,
            ProtocolVersion::SSLv3 => 0x0300,
            ProtocolVersion::TLSv1_0 => 0x0301,
            ProtocolVersion::TLSv1_1 => 0x0302,
            ProtocolVersion::TLSv1_2 => 0x0303,
            ProtocolVersion::TLSv1_3 => 0x0304,
            ProtocolVersion::Unknown(code) => *code,
        }
    }

    /// Computes the two-byte code of the version.
    pub fn get_u16(&self) -> (code: u16)
        ensures
            code == self.code(),
    {
        match self {
            ProtocolVersion::SSLv2 => 0x0200,
            ProtocolVersion::SSLv3 => 0x0300,
            ProtocolVersion::TLSv1_0 => 0x0301,
            ProtocolVersion::TLSv1_1 => 0x0302,
            ProtocolVersion::TLSv1_2 => 0x0303,
            ProtocolVersion::TLSv1_3 => 0x0304,
            ProtocolVersion::Unknown(code) => *code,
        }
    }
}

/// Content type of a record.
#[derive(Debug, Clone, Copy, PartialEq, Eq, Structural)]
pub enum ContentType {
    ChangeCipherSpec,
    Alert,
    Handshake,
    ApplicationData,
    Heartbeat,
    Unknown(u8),
}

impl ContentType {
    /// The one-byte code of the content type.
    pub open spec fn code(&self) -> u8 {
        match self {
            ContentType::ChangeCipherSpec => 20,
            ContentType::Alert => 21,
            ContentType::Handshake => 22,
            ContentType::ApplicationData => 23,
            ContentType::Heartbeat => 24,
            ContentType::Unknown(code) => *code,
        }
    }

    /// Computes the one-byte code of the content type.
    pub fn get_u8(&self) -> (code: u8)
        ensures
            code == self.code(),
    {
        match self {
            ContentType::ChangeCipherSpec => 20,
            ContentType::Alert => 21,
            ContentType::Handshake => 22,
            ContentType::ApplicationData => 23,
            ContentType::Heartbeat => 24,
            ContentType::Unknown(code) => *code,
        }
    }
}

/// Cipher suites a TLS client may offer.
#[derive(Debug, Clone, Copy, PartialEq, Eq, Structural)]
pub enum SupportedCipherSuite {
    EcdheEcdsaWithAes128GcmSha256,
    EcdheRsaWithAes128GcmSha256,
    EcdheEcdsaWithAes256GcmSha384,
    EcdheRsaWithAes256GcmSha384,
    EcdheEcdsaWithChacha20Poly1305Sha256,
    EcdheRsaWithChacha20Poly1305Sha256,
    Tls13Aes128GcmSha256,
    Tls13Aes256GcmSha384,
    Tls13Chacha20Poly1305Sha256,
}

impl SupportedCipherSuite {
    /// The suites this engine can run: ECDHE key exchange with AES-128-GCM and
    /// SHA-256.
    pub open spec fn is_aes128_gcm_sha256(&self) -> bool {
        *self == SupportedCipherSuite::EcdheEcdsaWithAes128GcmSha256 || *self
            == SupportedCipherSuite::EcdheRsaWithAes128GcmSha256
    }

    /// Tells whether this engine can run the suite.
    pub fn supported(&self) -> (supported: bool)
        ensures
            supported == self.is_aes128_gcm_sha256(),
    {
        match self {
            SupportedCipherSuite::EcdheEcdsaWithAes128GcmSha256 => true,
            SupportedCipherSuite::EcdheRsaWithAes128GcmSha256 => true,
            _ => false,
        }
    }
}

/// How outgoing records are to be protected.
#[derive(Debug, Clone, Copy, PartialEq, Eq, Structural)]
pub enum EncryptMode {
    EarlyData,
    Handshake,
    Application,
}

/// How incoming records are protected.
#[derive(Debug, Clone, Copy, PartialEq, Eq, Structural)]
pub enum DecryptMode {
    Handshake,
    Application,
}

/// The 32 random bytes of a hello message.
#[derive(Debug, Clone, Copy)]
pub struct Random(pub [u8; 32]);

/// Named groups for key exchange.
#[derive(Debug, Clone, Copy, PartialEq, Eq, Structural)]
pub enum NamedGroup {
    Secp256r1,
    Secp384r1,
    X25519,
    Unknown(u16),
}

/// A key share: the group and the encoded point.
#[derive(Debug, Clone)]
pub struct PublicKey {
    pub group: NamedGroup,
    pub key: Vec<u8>,
}

/// What the server presented to prove its identity. The chain has been
/// validated by the caller; `spki` is the subject public key info of its
/// end-entity certificate.
#[derive(Debug, Clone)]
pub struct ServerCertDetails {
    pub cert_chain: Vec<Vec<u8>>,
    pub ocsp_response: Vec<u8>,
    pub scts: Vec<u8>,
    pub spki: Vec<u8>,
}

/// The server's key exchange parameters and its signature over them.
#[derive(Debug, Clone)]
pub struct ServerKxDetails {
    pub kx_params: Vec<u8>,
    pub kx_sig: Vec<u8>,
}

/// Tells the TLS client whether buffered work is ready for it.
#[derive(Debug, Clone, Copy, PartialEq, Eq, Structural)]
pub struct BackendNotify {
    pub ready: bool,
}

/// A record in the clear.
#[derive(Debug, Clone)]
pub struct PlainMessage {
    pub typ: ContentType,
    pub version: ProtocolVersion,
    pub payload: Vec<u8>,
}

/// A protected record: explicit nonce, ciphertext, tag.
#[derive(Debug, Clone)]
pub struct OpaqueMessage {
    pub typ: ContentType,
    pub version: ProtocolVersion,
    pub payload: Vec<u8>,
}

/// A record as a mathematical value.
pub struct Record {
    pub typ: ContentType,
    pub version: ProtocolVersion,
    pub payload: Seq<u8>,
}

impl View for PlainMessage {
    type V = Record;

    open spec fn view(&self) -> Record {
        Record { typ: self.typ, version: self.version, payload: self.payload@ }
    }
}

impl View for OpaqueMessage {
    type V = Record;

    open spec fn view(&self) -> Record {
        Record { typ: self.typ, version: self.version, payload: self.payload@ }
    }
}

/// Big-endian bytes of a 64-bit sequence number.
pub open spec fn be64(value: u64) -> Seq<u8> {
    seq![
        (value / 0x100_0000_0000_0000) as u8,
        (value / 0x1_0000_0000_0000 % 0x100) as u8,
        (value / 0x100_0000_0000 % 0x100) as u8,
        (value / 0x1_0000_0000 % 0x100) as u8,
        (value / 0x100_0000 % 0x100) as u8,
        (value / 0x1_0000 % 0x100) as u8,
        (value / 0x100 % 0x100) as u8,
        (value % 0x100) as u8,
    ]
}

/// The explicit nonce of the record with sequence number `seq`: the number
/// itself, big-endian.
pub fn explicit_nonce(seq: u64) -> (nonce: [u8; 8])
    ensures
        nonce@ == be64(seq),
{
    let nonce: [u8; 8] = [
        (seq / 0x100_0000_0000_0000) as u8,
        (seq / 0x1_0000_0000_0000 % 0x100) as u8,
        (seq / 0x100_0000_0000 % 0x100) as u8,
        (seq / 0x1_0000_0000 % 0x100) as u8,
        (seq / 0x100_0000 % 0x100) as u8,
        (seq / 0x1_0000 % 0x100) as u8,
        (seq / 0x100 % 0x100) as u8,
        (seq % 0x100) as u8,
    ];
    assert(nonce@ =~= be64(seq));
    nonce
}

/// The additional authenticated data of a record: sequence number, content
/// type, version, then the plaintext length in two bytes.
pub open spec fn record_aad(seq: u64, typ: ContentType, version: ProtocolVersion, len: nat) -> Seq<
    u8,
>
    recommends
        len <= 0xffff,
{
    be64(seq) + seq![
        typ.code(),
        (version.code() / 0x100) as u8,
        (version.code() % 0x100) as u8,
        (len / 0x100) as u8,
        (len % 0x100) as u8,
    ]
}

/// Builds the additional authenticated data of a record.
pub fn make_aad(seq: u64, typ: ContentType, version: ProtocolVersion, len: u16) -> (aad: [u8; 13])
    ensures
        aad@ == record_aad(seq, typ, version, len as nat),
{
    let nonce = explicit_nonce(seq);
    let code = version.get_u16();
    let aad: [u8; 13] = [
        nonce[0],
        nonce[1],
        nonce[2],
        nonce[3],
        nonce[4],
        nonce[5],
        nonce[6],
        nonce[7],
        typ.get_u8(),
        (code / 0x100) as u8,
        (code % 0x100) as u8,
        (len / 0x100) as u8,
        (len % 0x100) as u8,
    ];
    assert(aad@ =~= record_aad(seq, typ, version, len as nat));
    aad
}

} // verus!
