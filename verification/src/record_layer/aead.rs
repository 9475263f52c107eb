//! Authenticated encryption and decryption of records, and their tags.
//!
//! A record is prepared first and computed later: preparing schedules the
//! keystream in the machine, computing joins the mask with the ciphertext and
//! builds or checks the tag. Several records can so be prepared before any is
//! computed.

use crate::bytes::to_vec;
use crate::cipher::{counter_covers, j0_block, keystream_apply, Keystream, START_COUNTER};
use crate::decode::{Decode, OneTimePadShared};
use crate::error::{DecodeError, MpcTlsError, TlsRole, VmError};
use crate::msgs::{OpaqueMessage, PlainMessage, Record};
use crate::record_layer::ghash::{tag_outcome, GhashCompute, Tag};
use crate::vm::{assign_outcome, Array, RegionView, Vector, Vm};
use vstd::prelude::*;

verus! {

/// Reads a one-block reference as a reference to a vector of sixteen bytes.
pub fn transmute(value: Array) -> (vector: Vector)
    ensures
        vector == (Vector { ptr: value.ptr, len: 16 }),
{
    Vector { ptr: value.ptr, len: 16 }
}

/// True when `later` keeps every region of `earlier` but, possibly, the one
/// at `index`, and has `added` regions more.
pub open spec fn grown(
    earlier: Seq<RegionView>,
    later: Seq<RegionView>,
    index: int,
    added: nat,
) -> bool {
    &&& later.len() == earlier.len() + added
    &&& forall|i: int| 0 <= i < earlier.len() && i != index ==> #[trigger] later[i] == earlier[i]
}

/// Prepares encryptions under one write key.
#[derive(Debug, Clone, Copy)]
pub struct AesGcmEncrypt {
    role: TlsRole,
    keystream: Keystream,
    ghash: GhashCompute,
}

/// An encryption that has been prepared: the mask in two shares, the hash
/// engine, the ciphertext as revealed, and the associated data.
#[derive(Debug)]
pub struct Encrypt<C> {
    j0: OneTimePadShared,
    ghash: GhashCompute,
    ciphertext: Result<C, MpcTlsError>,
    aad: [u8; 13],
}

/// Why a record cannot be prepared for encryption, if it cannot: it is too
/// long for one nonce, or the plaintext region does not take the plaintext.
pub open spec fn encrypt_refusal(
    memory: Seq<RegionView>,
    plaintext_ref: Vector,
    plaintext: Seq<u8>,
) -> Option<MpcTlsError> {
    if !counter_covers(START_COUNTER, plaintext.len()) {
        Some(MpcTlsError::Capacity)
    } else {
        match assign_outcome(memory, plaintext_ref, plaintext) {
            Err(cause) => Some(MpcTlsError::Vm { cause }),
            Ok(_) => None,
        }
    }
}

impl AesGcmEncrypt {
    /// The party preparing.
    pub closed spec fn role(&self) -> TlsRole {
        self.role
    }

    /// The keystream generator, bound to the write key.
    pub closed spec fn keystream(&self) -> Keystream {
        self.keystream
    }

    /// The hash engine.
    pub closed spec fn ghash(&self) -> GhashCompute {
        self.ghash
    }

    /// Creates a new instance for encryption.
    pub fn new(role: TlsRole, keystream: Keystream, ghash: GhashCompute) -> (encrypter:
        AesGcmEncrypt)
        ensures
            encrypter.role() == role,
            encrypter.keystream() == keystream,
            encrypter.ghash() == ghash,
    {
        AesGcmEncrypt { role, keystream, ghash }
    }

    /// Prepares the encryption of `plaintext`, which goes to the region
    /// `plaintext_ref`. The call stands for the calls of both parties, and
    /// `plaintext` is what the leader holds.
    ///
    /// The machine gains three regions: the mask, the masked mask, and the
    /// ciphertext; the plaintext region gets its value. Of these only the
    /// masked mask and the ciphertext are revealed. A refused record leaves
    /// behind the first two.
    pub fn encrypt(
        &mut self,
        vm: &mut Vm,
        plaintext_ref: Vector,
        explicit_nonce: [u8; 8],
        plaintext: Vec<u8>,
        aad: [u8; 13],
    ) -> (outcome: Result<Encrypt<Vec<u8>>, MpcTlsError>)
        requires
            old(vm).wf(),
        ensures
            final(vm).wf(),
            *final(self) == *old(self),
            match outcome {
                Ok(prepared) => {
                    &&& encrypt_refusal(old(vm)@, plaintext_ref, plaintext@) is None
                    &&& prepared.mask() == j0_block(
                        old(self).keystream().key(),
                        old(self).keystream().iv(),
                        explicit_nonce@,
                    )
                    &&& prepared.mask().len() == 16
                    &&& prepared.ghash() == old(self).ghash()
                    &&& prepared.aad() == aad@
                    &&& prepared.ciphertext() is Ok
                    &&& prepared.ciphertext()->Ok_0@ == keystream_apply(
                        old(self).keystream().key(),
                        old(self).keystream().iv(),
                        explicit_nonce@,
                        START_COUNTER,
                        plaintext@,
                    )
                    &&& grown(old(vm)@, final(vm)@, plaintext_ref.ptr as int, 3)
                    &&& final(vm).value(plaintext_ref) == Some(plaintext@)
                    &&& final(vm)@[plaintext_ref.ptr as int].public == old(
                        vm,
                    )@[plaintext_ref.ptr as int].public
                    &&& final(vm)@[old(vm)@.len() as int] == (RegionView {
                        len: 16,
                        public: false,
                        value: Some(prepared.mask()),
                    })
                    &&& final(vm)@[old(vm)@.len() as int + 1].public
                    &&& final(vm)@[old(vm)@.len() as int + 2] == (RegionView {
                        len: plaintext@.len(),
                        public: true,
                        value: Some(prepared.ciphertext()->Ok_0@),
                    })
                },
                Err(error) => {
                    &&& encrypt_refusal(old(vm)@, plaintext_ref, plaintext@) == Some(error)
                    &&& grown(old(vm)@, final(vm)@, -1, 2)
                },
            },
    {
        let known = vm.has_len(plaintext_ref);
        let assigned = known && vm.peek(plaintext_ref).is_ok();
        let j0 = match self.keystream.j0(vm, explicit_nonce) {
            Ok(j0) => j0,
            Err(error) => {
                return Err(error);
            },
        };
        let j0 = Decode::new(vm, self.role, transmute(j0));
        assert(j0 is Ok);
        let j0 = match j0 {
            Ok(j0) => j0,
            Err(error) => {
                return Err(error);
            },
        };
        let j0 = j0.shared(vm);
        assert(j0 is Ok);
        let j0 = match j0 {
            Ok(j0) => j0,
            Err(error) => {
                return Err(error);
            },
        };
        let ghost masked = vm@;
        assert(grown(old(vm)@, masked, -1, 2));

        let keystream = match self.keystream.chunk_sufficient(plaintext.len()) {
            Ok(keystream) => keystream,
            Err(error) => {
                return Err(error);
            },
        };
        if !known {
            return Err(MpcTlsError::vm(VmError::UnknownReference));
        }
        if assigned {
            return Err(MpcTlsError::vm(VmError::AlreadyAssigned));
        }
        if plaintext.len() != plaintext_ref.len {
            return Err(MpcTlsError::vm(VmError::LengthMismatch));
        }
        assert(masked[plaintext_ref.ptr as int] == old(vm)@[plaintext_ref.ptr as int]);
        let cipher_out = keystream.apply(vm, plaintext_ref);
        assert(cipher_out is Ok);
        let cipher_out = match cipher_out {
            Ok(cipher_out) => cipher_out,
            Err(cause) => {
                return Err(MpcTlsError::vm(cause));
            },
        };
        let ghost wired = vm@;
        let ghost bytes = plaintext@;
        proof {
            let index = plaintext_ref.ptr as int;
            assert(wired == masked.push(
                RegionView { len: plaintext_ref.len as nat, public: false, value: None },
            ));
            assert(wired[index] == old(vm)@[index]);
            assert(assign_outcome(wired, cipher_out.input(), bytes) is Ok);
            assert(wired[cipher_out.output().ptr as int].value is None);
            assert(assign_outcome(wired, cipher_out.output(), bytes) is Ok);
        }
        let cipher_ref = cipher_out.assign(vm, explicit_nonce, START_COUNTER, plaintext);
        assert(cipher_ref is Ok);
        let cipher_ref = match cipher_ref {
            Ok(cipher_ref) => cipher_ref,
            Err(cause) => {
                return Err(MpcTlsError::vm(cause));
            },
        };
        let ciphertext = vm.decode(cipher_ref);
        assert(ciphertext is Ok);
        let ciphertext = match ciphertext {
            Ok(ciphertext) => ciphertext,
            Err(cause) => {
                return Err(MpcTlsError::decode(cause));
            },
        };
        Ok(Encrypt { j0, ghash: self.ghash, ciphertext: Ok(ciphertext), aad })
    }
}

impl<C> Encrypt<C> {
    /// The mask of the tag: the value the two shares add up to.
    pub closed spec fn mask(&self) -> Seq<u8> {
        self.j0.value()
    }

    /// The hash engine.
    pub closed spec fn ghash(&self) -> GhashCompute {
        self.ghash
    }

    /// The associated data.
    pub closed spec fn aad(&self) -> Seq<u8> {
        self.aad@
    }

    /// The ciphertext as revealed, or why it could not be.
    pub closed spec fn ciphertext(&self) -> Result<C, MpcTlsError> {
        self.ciphertext
    }

    /// Transforms the revealed ciphertext with a closure; a failed reveal is
    /// passed on.
    pub fn map_cipher<T, U>(self, func: T) -> (mapped: Encrypt<U>) where T: FnOnce(C) -> U
        requires
            self.ciphertext() is Ok ==> func.requires((self.ciphertext()->Ok_0,)),
        ensures
            mapped.mask() == self.mask(),
            mapped.ghash() == self.ghash(),
            mapped.aad() == self.aad(),
            match self.ciphertext() {
                Ok(ciphertext) => mapped.ciphertext() is Ok && func.ensures(
                    (ciphertext,),
                    mapped.ciphertext()->Ok_0,
                ),
                Err(error) => mapped.ciphertext() == Err::<U, MpcTlsError>(error),
            },
    {
        let ciphertext = match self.ciphertext {
            Ok(ciphertext) => Ok(func(ciphertext)),
            Err(error) => Err(error),
        };
        Encrypt { j0: self.j0, ghash: self.ghash, ciphertext, aad: self.aad }
    }
}

/// The record that computing an encryption yields: the ciphertext record with
/// the tag appended to its payload.
pub open spec fn sealed(
    ghash: GhashCompute,
    mask: Seq<u8>,
    aad: Seq<u8>,
    ciphertext: Result<Record, MpcTlsError>,
) -> Result<Record, MpcTlsError> {
    match ciphertext {
        Err(error) => Err(error),
        Ok(record) => match tag_outcome(ghash.subkey(), mask, aad, record.payload) {
            Err(error) => Err(error),
            Ok(tag) => Ok(Record { payload: record.payload + tag, ..record }),
        },
    }
}

/// A `Result` of a message, by its view.
pub open spec fn opaque_view(outcome: Result<OpaqueMessage, MpcTlsError>) -> Result<
    Record,
    MpcTlsError,
> {
    match outcome {
        Ok(message) => Ok(message@),
        Err(error) => Err(error),
    }
}

impl Encrypt<OpaqueMessage> {
    /// Computes the tag over the ciphertext and appends it.
    pub fn compute(self) -> (outcome: Result<OpaqueMessage, MpcTlsError>)
        ensures
            opaque_view(outcome) == sealed(
                self.ghash(),
                self.mask(),
                self.aad(),
                opaque_view(self.ciphertext()),
            ),
    {
        let j0 = match self.j0.decode() {
            Ok(j0) => j0,
            Err(cause) => {
                return Err(MpcTlsError::decode(cause));
            },
        };
        let aad = to_vec(self.aad.as_slice());
        let mut ciphertext = match self.ciphertext {
            Ok(ciphertext) => ciphertext,
            Err(error) => {
                return Err(error);
            },
        };
        let ghost before = ciphertext@;
        let tag = match Tag::compute(&self.ghash, j0, &ciphertext.payload, aad) {
            Ok(tag) => tag,
            Err(error) => {
                return Err(error);
            },
        };
        let mut tag = tag.into_inner();
        ciphertext.payload.append(&mut tag);
        assert(ciphertext@ == (Record { payload: before.payload + tag_outcome(
            self.ghash().subkey(),
            self.mask(),
            self.aad(),
            before.payload,
        )->Ok_0, ..before }));
        Ok(ciphertext)
    }
}

/// Prepares decryptions under one write key.
#[derive(Debug, Clone, Copy)]
pub struct AesGcmDecrypt {
    role: TlsRole,
    keystream: Keystream,
    ghash: GhashCompute,
}

/// A decryption that has been prepared: the plaintext sits in the machine,
/// revealed to no one yet. Can be turned into either [`DecryptPrivate`] or
/// [`DecryptPublic`].
#[derive(Debug)]
pub struct Decrypt {
    role: TlsRole,
    j0: OneTimePadShared,
    ciphertext: Vec<u8>,
    ghash: GhashCompute,
    plaintext_ref: Vector,
    aad: [u8; 13],
    purported_tag: Vec<u8>,
}

/// Private decryption: the plaintext goes to the leader alone.
#[derive(Debug)]
pub struct DecryptPrivate<P> {
    role: TlsRole,
    j0: OneTimePadShared,
    ghash: GhashCompute,
    ciphertext: Vec<u8>,
    plaintext: Result<P, MpcTlsError>,
    aad: [u8; 13],
    purported_tag: Vec<u8>,
}

/// Public decryption: the plaintext goes to both parties.
#[derive(Debug)]
pub struct DecryptPublic<P> {
    role: TlsRole,
    j0: OneTimePadShared,
    ghash: GhashCompute,
    ciphertext: Vec<u8>,
    plaintext: Result<P, MpcTlsError>,
    aad: [u8; 13],
    purported_tag: Vec<u8>,
}

/// What a prepared decryption carries besides the plaintext.
pub struct Sealed {
    pub role: TlsRole,
    pub mask: Seq<u8>,
    pub ghash: GhashCompute,
    pub ciphertext: Seq<u8>,
    pub aad: Seq<u8>,
    pub purported_tag: Seq<u8>,
}

impl Sealed {
    /// Why the record is not authentic, if it is not: its tag cannot be
    /// computed, or differs from the one it came with.
    pub open spec fn rejection(&self) -> Option<MpcTlsError> {
        match tag_outcome(self.ghash.subkey(), self.mask, self.aad, self.ciphertext) {
            Err(error) => Some(error),
            Ok(tag) => if tag == self.purported_tag {
                None
            } else {
                Some(MpcTlsError::AeadTagMismatch)
            },
        }
    }

    /// What computing releases: the plaintext only once it has been revealed
    /// and the record has been found authentic.
    pub open spec fn release<P>(&self, plaintext: Result<P, MpcTlsError>) -> Result<
        P,
        MpcTlsError,
    > {
        match plaintext {
            Err(error) => Err(error),
            Ok(plaintext) => match self.rejection() {
                Some(error) => Err(error),
                None => Ok(plaintext),
            },
        }
    }
}

/// Checks the tag of a prepared decryption.
fn authenticate(
    role: TlsRole,
    j0: OneTimePadShared,
    ghash: &GhashCompute,
    ciphertext: &Vec<u8>,
    aad: &[u8; 13],
    purported_tag: Vec<u8>,
) -> (outcome: Result<(), MpcTlsError>)
    ensures
        match outcome {
            Ok(_) => (Sealed {
                role,
                mask: j0.value(),
                ghash: *ghash,
                ciphertext: ciphertext@,
                aad: aad@,
                purported_tag: purported_tag@,
            }).rejection() is None,
            Err(error) => (Sealed {
                role,
                mask: j0.value(),
                ghash: *ghash,
                ciphertext: ciphertext@,
                aad: aad@,
                purported_tag: purported_tag@,
            }).rejection() == Some(error),
        },
{
    let j0 = match j0.decode() {
        Ok(j0) => j0,
        Err(cause) => {
            return Err(MpcTlsError::decode(cause));
        },
    };
    let tag = match Tag::compute(ghash, j0, ciphertext, to_vec(aad.as_slice())) {
        Ok(tag) => tag,
        Err(error) => {
            return Err(error);
        },
    };
    tag.verify(role, purported_tag)
}

impl AesGcmDecrypt {
    /// The party preparing.
    pub closed spec fn role(&self) -> TlsRole {
        self.role
    }

    /// The keystream generator, bound to the write key.
    pub closed spec fn keystream(&self) -> Keystream {
        self.keystream
    }

    /// The hash engine.
    pub closed spec fn ghash(&self) -> GhashCompute {
        self.ghash
    }

    /// Creates a new instance for decryption.
    pub fn new(role: TlsRole, keystream: Keystream, ghash: GhashCompute) -> (decrypter:
        AesGcmDecrypt)
        ensures
            decrypter.role() == role,
            decrypter.keystream() == keystream,
            decrypter.ghash() == ghash,
    {
        AesGcmDecrypt { role, keystream, ghash }
    }

    /// Prepares the decryption of `ciphertext`.
    ///
    /// The machine gains four regions: the mask, the masked mask, the
    /// ciphertext, which is public, and the plaintext, whose reference is
    /// returned beside the handle. A ciphertext too long for one nonce is
    /// refused and leaves behind the first two.
    pub fn decrypt(
        &mut self,
        vm: &mut Vm,
        explicit_nonce: [u8; 8],
        ciphertext: Vec<u8>,
        aad: [u8; 13],
        purported_tag: Vec<u8>,
    ) -> (outcome: Result<(Decrypt, Vector), MpcTlsError>)
        requires
            old(vm).wf(),
        ensures
            final(vm).wf(),
            *final(self) == *old(self),
            outcome is Ok <==> counter_covers(START_COUNTER, ciphertext@.len()),
            match outcome {
                Ok((prepared, plaintext_ref)) => {
                    &&& prepared.sealed() == (Sealed {
                        role: old(self).role(),
                        mask: j0_block(
                            old(self).keystream().key(),
                            old(self).keystream().iv(),
                            explicit_nonce@,
                        ),
                        ghash: old(self).ghash(),
                        ciphertext: ciphertext@,
                        aad: aad@,
                        purported_tag: purported_tag@,
                    })
                    &&& prepared.sealed().mask.len() == 16
                    &&& prepared.plaintext_ref() == plaintext_ref
                    &&& plaintext_ref.ptr == old(vm)@.len() + 3
                    &&& plaintext_ref.len == ciphertext@.len()
                    &&& grown(old(vm)@, final(vm)@, -1, 4)
                    &&& final(vm)@[old(vm)@.len() as int + 2] == (RegionView {
                        len: ciphertext@.len(),
                        public: true,
                        value: Some(ciphertext@),
                    })
                    &&& final(vm)@[plaintext_ref.ptr as int] == (RegionView {
                        len: ciphertext@.len(),
                        public: false,
                        value: Some(
                            keystream_apply(
                                old(self).keystream().key(),
                                old(self).keystream().iv(),
                                explicit_nonce@,
                                START_COUNTER,
                                ciphertext@,
                            ),
                        ),
                    })
                },
                Err(error) => error == MpcTlsError::Capacity && grown(old(vm)@, final(vm)@, -1, 2),
            },
    {
        let j0 = match self.keystream.j0(vm, explicit_nonce) {
            Ok(j0) => j0,
            Err(error) => {
                return Err(error);
            },
        };
        let j0 = Decode::new(vm, self.role, transmute(j0));
        assert(j0 is Ok);
        let j0 = match j0 {
            Ok(j0) => j0,
            Err(error) => {
                return Err(error);
            },
        };
        let j0 = j0.shared(vm);
        assert(j0 is Ok);
        let j0 = match j0 {
            Ok(j0) => j0,
            Err(error) => {
                return Err(error);
            },
        };
        let ghost masked = vm@;
        assert(grown(old(vm)@, masked, -1, 2));

        let keystream = match self.keystream.chunk_sufficient(ciphertext.len()) {
            Ok(keystream) => keystream,
            Err(error) => {
                return Err(error);
            },
        };
        let cipher_ref = vm.alloc_vec(ciphertext.len());
        let marked = vm.mark_public(cipher_ref);
        assert(marked is Ok);
        let cipher_out = keystream.apply(vm, cipher_ref);
        assert(cipher_out is Ok);
        let cipher_out = match cipher_out {
            Ok(cipher_out) => cipher_out,
            Err(cause) => {
                return Err(MpcTlsError::vm(cause));
            },
        };
        let ghost wired = vm@;
        proof {
            assert(assign_outcome(wired, cipher_out.input(), ciphertext@) is Ok);
            assert(wired[cipher_out.output().ptr as int].value is None);
            assert(assign_outcome(wired, cipher_out.output(), ciphertext@) is Ok);
        }
        let input = ciphertext.clone();
        let plaintext_ref = cipher_out.assign(vm, explicit_nonce, START_COUNTER, input);
        assert(plaintext_ref is Ok);
        let plaintext_ref = match plaintext_ref {
            Ok(plaintext_ref) => plaintext_ref,
            Err(cause) => {
                return Err(MpcTlsError::vm(cause));
            },
        };
        let decrypt = Decrypt {
            role: self.role,
            j0,
            ciphertext,
            ghash: self.ghash,
            plaintext_ref,
            aad,
            purported_tag,
        };
        Ok((decrypt, plaintext_ref))
    }
}

/// Why the plaintext in region `plaintext_ref` cannot be revealed, if it
/// cannot.
pub open spec fn reveal_refusal(vm: &Vm, plaintext_ref: Vector) -> Option<MpcTlsError> {
    if !vm.holds(plaintext_ref) {
        Some(MpcTlsError::Vm { cause: VmError::UnknownReference })
    } else if vm.value(plaintext_ref) is None {
        Some(MpcTlsError::Decode { cause: DecodeError::Unassigned })
    } else {
        None
    }
}

impl Decrypt {
    /// The record and its keys.
    pub closed spec fn sealed(&self) -> Sealed {
        Sealed {
            role: self.role,
            mask: self.j0.value(),
            ghash: self.ghash,
            ciphertext: self.ciphertext@,
            aad: self.aad@,
            purported_tag: self.purported_tag@,
        }
    }

    /// The region that holds the plaintext.
    pub closed spec fn plaintext_ref(&self) -> Vector {
        self.plaintext_ref
    }

    /// Turns `self` into [`DecryptPrivate`]: the plaintext is revealed to the
    /// leader under a one-time pad. The machine gains the region of the
    /// masked plaintext, which is public; the plaintext's own region stays as
    /// it was.
    pub fn private(self, vm: &mut Vm) -> (outcome: Result<
        DecryptPrivate<Option<Vec<u8>>>,
        MpcTlsError,
    >)
        requires
            old(vm).wf(),
        ensures
            final(vm).wf(),
            match outcome {
                Ok(revealed) => {
                    &&& reveal_refusal(old(vm), self.plaintext_ref()) is None
                    &&& revealed.sealed() == self.sealed()
                    &&& match revealed.plaintext() {
                        Ok(Some(bytes)) => self.sealed().role == TlsRole::Leader && Some(bytes@)
                            == old(vm).value(self.plaintext_ref()),
                        Ok(None) => self.sealed().role == TlsRole::Follower,
                        Err(_) => false,
                    }
                    &&& grown(old(vm)@, final(vm)@, -1, 1)
                },
                Err(error) => {
                    &&& reveal_refusal(old(vm), self.plaintext_ref()) == Some(error)
                    &&& final(vm)@ == old(vm)@
                },
            },
    {
        let otp = match Decode::new(vm, self.role, self.plaintext_ref) {
            Ok(otp) => otp,
            Err(error) => {
                return Err(error);
            },
        };
        let pad = match otp.private(vm) {
            Ok(pad) => pad,
            Err(error) => {
                return Err(error);
            },
        };
        let plaintext = pad.decode();
        Ok(
            DecryptPrivate {
                role: self.role,
                j0: self.j0,
                ciphertext: self.ciphertext,
                ghash: self.ghash,
                plaintext,
                aad: self.aad,
                purported_tag: self.purported_tag,
            },
        )
    }

    /// Turns `self` into [`DecryptPublic`]: the plaintext is revealed to both
    /// parties, which makes its region public.
    pub fn public(self, vm: &mut Vm) -> (outcome: Result<DecryptPublic<Vec<u8>>, MpcTlsError>)
        requires
            old(vm).wf(),
        ensures
            final(vm).wf(),
            match outcome {
                Ok(revealed) => {
                    &&& old(vm).holds(self.plaintext_ref())
                    &&& revealed.sealed() == self.sealed()
                    &&& revealed.plaintext() is Ok
                    &&& Some(revealed.plaintext()->Ok_0@) == old(vm).value(self.plaintext_ref())
                    &&& final(vm)@ == old(vm)@.update(
                        self.plaintext_ref().ptr as int,
                        RegionView {
                            public: true,
                            ..old(vm)@[self.plaintext_ref().ptr as int]
                        },
                    )
                },
                Err(error) => {
                    &&& final(vm)@ == old(vm)@
                    &&& if !old(vm).holds(self.plaintext_ref()) {
                        error == (MpcTlsError::Decode { cause: DecodeError::UnknownReference })
                    } else {
                        old(vm).value(self.plaintext_ref()) is None && error
                            == (MpcTlsError::Decode { cause: DecodeError::Unassigned })
                    }
                },
            },
    {
        let plaintext = match vm.decode(self.plaintext_ref) {
            Ok(plaintext) => plaintext,
            Err(cause) => {
                return Err(MpcTlsError::decode(cause));
            },
        };
        Ok(
            DecryptPublic {
                role: self.role,
                j0: self.j0,
                ciphertext: self.ciphertext,
                ghash: self.ghash,
                plaintext: Ok(plaintext),
                aad: self.aad,
                purported_tag: self.purported_tag,
            },
        )
    }
}

impl<P> DecryptPrivate<P> {
    /// The record and its keys.
    pub closed spec fn sealed(&self) -> Sealed {
        Sealed {
            role: self.role,
            mask: self.j0.value(),
            ghash: self.ghash,
            ciphertext: self.ciphertext@,
            aad: self.aad@,
            purported_tag: self.purported_tag@,
        }
    }

    /// The plaintext as revealed to this party, or why it could not be.
    pub closed spec fn plaintext(&self) -> Result<P, MpcTlsError> {
        self.plaintext
    }

    /// Transforms the revealed plaintext with a closure; a failed reveal is
    /// passed on.
    pub fn map_plain<T, U>(self, func: T) -> (mapped: DecryptPrivate<U>) where T: FnOnce(P) -> U
        requires
            self.plaintext() is Ok ==> func.requires((self.plaintext()->Ok_0,)),
        ensures
            mapped.sealed() == self.sealed(),
            match self.plaintext() {
                Ok(plaintext) => mapped.plaintext() is Ok && func.ensures(
                    (plaintext,),
                    mapped.plaintext()->Ok_0,
                ),
                Err(error) => mapped.plaintext() == Err::<U, MpcTlsError>(error),
            },
    {
        let plaintext = match self.plaintext {
            Ok(plaintext) => Ok(func(plaintext)),
            Err(error) => Err(error),
        };
        DecryptPrivate {
            role: self.role,
            j0: self.j0,
            ghash: self.ghash,
            ciphertext: self.ciphertext,
            plaintext,
            aad: self.aad,
            purported_tag: self.purported_tag,
        }
    }
}

impl DecryptPrivate<Option<PlainMessage>> {
    /// Checks the tag and, only if the record is authentic, releases the
    /// private plaintext.
    pub fn compute(self) -> (outcome: Result<Option<PlainMessage>, MpcTlsError>)
        ensures
            outcome == self.sealed().release(self.plaintext()),
    {
        let plaintext = match self.plaintext {
            Ok(plaintext) => plaintext,
            Err(error) => {
                return Err(error);
            },
        };
        match authenticate(
            self.role,
            self.j0,
            &self.ghash,
            &self.ciphertext,
            &self.aad,
            self.purported_tag,
        ) {
            Ok(_) => Ok(plaintext),
            Err(error) => Err(error),
        }
    }
}

impl<P> DecryptPublic<P> {
    /// The record and its keys.
    pub closed spec fn sealed(&self) -> Sealed {
        Sealed {
            role: self.role,
            mask: self.j0.value(),
            ghash: self.ghash,
            ciphertext: self.ciphertext@,
            aad: self.aad@,
            purported_tag: self.purported_tag@,
        }
    }

    /// The plaintext as revealed, or why it could not be.
    pub closed spec fn plaintext(&self) -> Result<P, MpcTlsError> {
        self.plaintext
    }

    /// Transforms the revealed plaintext with a closure; a failed reveal is
    /// passed on.
    pub fn map_plain<T, U>(self, func: T) -> (mapped: DecryptPublic<U>) where T: FnOnce(P) -> U
        requires
            self.plaintext() is Ok ==> func.requires((self.plaintext()->Ok_0,)),
        ensures
            mapped.sealed() == self.sealed(),
            match self.plaintext() {
                Ok(plaintext) => mapped.plaintext() is Ok && func.ensures(
                    (plaintext,),
                    mapped.plaintext()->Ok_0,
                ),
                Err(error) => mapped.plaintext() == Err::<U, MpcTlsError>(error),
            },
    {
        let plaintext = match self.plaintext {
            Ok(plaintext) => Ok(func(plaintext)),
            Err(error) => Err(error),
        };
        DecryptPublic {
            role: self.role,
            j0: self.j0,
            ghash: self.ghash,
            ciphertext: self.ciphertext,
            plaintext,
            aad: self.aad,
            purported_tag: self.purported_tag,
        }
    }
}

impl DecryptPublic<PlainMessage> {
    /// Checks the tag and, only if the record is authentic, releases the
    /// public plaintext.
    pub fn compute(self) -> (outcome: Result<PlainMessage, MpcTlsError>)
        ensures
            outcome == self.sealed().release(self.plaintext()),
    {
        let plaintext = match self.plaintext {
            Ok(plaintext) => plaintext,
            Err(error) => {
                return Err(error);
            },
        };
        match authenticate(
            self.role,
            self.j0,
            &self.ghash,
            &self.ciphertext,
            &self.aad,
            self.purported_tag,
        ) {
            Ok(_) => Ok(plaintext),
            Err(error) => Err(error),
        }
    }
}

} // verus!
