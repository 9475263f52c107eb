//! One-time-pad reveal of machine values: to both parties, to the leader
//! alone, or as two shares.

use crate::error::{DecodeError, MpcTlsError, TlsRole, VmError};
use crate::vm::{RegionView, Vector, Vm};
use rand::RngCore;
use vstd::prelude::*;

verus! {

/// Bytewise exclusive or of two sequences, as far as the shorter one goes.
pub open spec fn xor_bytes(a: Seq<u8>, b: Seq<u8>) -> Seq<u8> {
    Seq::new(
        if a.len() <= b.len() {
            a.len()
        } else {
            b.len()
        },
        |i: int| a[i] ^ b[i],
    )
}

/// Masking twice with the same pad gives the value back.
pub proof fn lemma_xor_bytes_involution(value: Seq<u8>, pad: Seq<u8>)
    requires
        value.len() == pad.len(),
    ensures
        xor_bytes(xor_bytes(value, pad), pad) == value,
{
    let masked = xor_bytes(value, pad);
    assert forall|i: int| 0 <= i < value.len() implies xor_bytes(masked, pad)[i] == value[i] by {
        let v = value[i];
        let p = pad[i];
        assert((v ^ p) ^ p == v) by (bit_vector);
    }
    assert(xor_bytes(masked, pad) =~= value);
}

/// Computes the bytewise exclusive or of two vectors, as far as the shorter
/// one goes.
pub fn xor_vec(a: &Vec<u8>, b: &Vec<u8>) -> (out: Vec<u8>)
    ensures
        out@ == xor_bytes(a@, b@),
{
    let len = if a.len() <= b.len() {
        a.len()
    } else {
        b.len()
    };
    let mut out: Vec<u8> = Vec::with_capacity(len);
    let mut i: usize = 0;
    while i < len
        invariant
            i <= len,
            len <= a@.len(),
            len <= b@.len(),
            len == a@.len() || len == b@.len(),
            out@.len() == i,
            forall|j: int| 0 <= j < i ==> out@[j] == a@[j] ^ b@[j],
        decreases len - i,
    {
        out.push(a[i] ^ b[i]);
        i += 1;
    }
    assert(out@ =~= xor_bytes(a@, b@));
    out
}

/// `RngCore::fill_bytes` of `rand`, on the generator that `rand::thread_rng()`
/// hands out: `len` fresh bytes. Nothing is promised of the bytes.
#[verifier::external_body]
pub(crate) fn fresh_bytes(len: usize) -> (bytes: Vec<u8>)
    ensures
        bytes@.len() == len,
{
    let mut bytes = vec![0u8; len];
    rand::thread_rng().fill_bytes(&mut bytes);
    bytes
}

/// A machine value about to be revealed, with the pad that will mask it.
#[derive(Debug)]
pub struct Decode {
    role: TlsRole,
    value: Vector,
    otp: Vec<u8>,
}

/// A value revealed to the leader alone: the masked value, which both
/// parties see, and the pad, which only the leader knows.
#[derive(Debug)]
pub struct OneTimePadPrivate {
    role: TlsRole,
    masked: Vec<u8>,
    otp: Vec<u8>,
}

/// A value split in two shares: the pad and the masked value.
#[derive(Debug)]
pub struct OneTimePadShared {
    role: TlsRole,
    masked: Vec<u8>,
    otp: Vec<u8>,
}

impl OneTimePadPrivate {
    #[verifier::type_invariant]
    spec fn well_formed(&self) -> bool {
        self.masked@.len() == self.otp@.len()
    }

    /// The party this handle belongs to.
    pub closed spec fn role(&self) -> TlsRole {
        self.role
    }

    /// The value under the pad.
    pub closed spec fn value(&self) -> Seq<u8> {
        xor_bytes(self.masked@, self.otp@)
    }

    /// What this party learns: the leader the value, the follower nothing.
    pub open spec fn revealed(&self) -> Option<Seq<u8>> {
        if self.role() == TlsRole::Leader {
            Some(self.value())
        } else {
            None
        }
    }

    /// Completes the reveal.
    pub fn decode(self) -> (outcome: Result<Option<Vec<u8>>, MpcTlsError>)
        ensures
            outcome is Ok,
            match outcome->Ok_0 {
                Some(bytes) => self.revealed() == Some(bytes@),
                None => self.revealed() is None,
            },
    {
        proof {
            use_type_invariant(&self);
        }
        match self.role {
            TlsRole::Leader => Ok(Some(xor_vec(&self.masked, &self.otp))),
            TlsRole::Follower => Ok(None),
        }
    }
}

impl OneTimePadShared {
    #[verifier::type_invariant]
    spec fn well_formed(&self) -> bool {
        self.masked@.len() == self.otp@.len()
    }

    /// The party this handle belongs to.
    pub closed spec fn role(&self) -> TlsRole {
        self.role
    }

    /// The value the two shares add up to.
    pub closed spec fn value(&self) -> Seq<u8> {
        xor_bytes(self.masked@, self.otp@)
    }

    /// Joins the two shares, which makes the value known to both parties.
    pub fn decode(self) -> (outcome: Result<Vec<u8>, DecodeError>)
        ensures
            outcome is Ok,
            outcome->Ok_0@ == self.value(),
    {
        proof {
            use_type_invariant(&self);
        }
        Ok(xor_vec(&self.masked, &self.otp))
    }
}

impl Decode {
    #[verifier::type_invariant]
    spec fn well_formed(&self) -> bool {
        self.otp@.len() == self.value.len
    }

    /// The party this handle belongs to.
    pub closed spec fn role(&self) -> TlsRole {
        self.role
    }

    /// The region to reveal.
    pub closed spec fn target(&self) -> Vector {
        self.value
    }

    /// The pad.
    pub closed spec fn pad(&self) -> Seq<u8> {
        self.otp@
    }

    /// Prepares the reveal of region `value` under the pad `otp`.
    pub fn with_pad(vm: &Vm, role: TlsRole, value: Vector, otp: Vec<u8>) -> (outcome: Result<
        Decode,
        MpcTlsError,
    >)
        requires
            otp@.len() == value.len,
        ensures
            outcome is Ok <==> vm.holds(value),
            outcome is Err ==> outcome->Err_0 == (MpcTlsError::Vm {
                cause: VmError::UnknownReference,
            }),
            outcome is Ok ==> {
                &&& outcome->Ok_0.role() == role
                &&& outcome->Ok_0.target() == value
                &&& outcome->Ok_0.pad() == otp@
            },
    {
        if value.ptr >= vm.len() {
            return Err(MpcTlsError::vm(VmError::UnknownReference));
        }
        if !vm.has_len(value) {
            return Err(MpcTlsError::vm(VmError::UnknownReference));
        }
        Ok(Decode { role, value, otp })
    }

    /// Prepares the reveal of region `value` under a fresh random pad.
    pub fn new(vm: &Vm, role: TlsRole, value: Vector) -> (outcome: Result<Decode, MpcTlsError>)
        ensures
            outcome is Ok <==> vm.holds(value),
            outcome is Err ==> outcome->Err_0 == (MpcTlsError::Vm {
                cause: VmError::UnknownReference,
            }),
            outcome is Ok ==> {
                &&& outcome->Ok_0.role() == role
                &&& outcome->Ok_0.target() == value
                &&& outcome->Ok_0.pad().len() == value.len
            },
    {
        let otp = fresh_bytes(value.len);
        Decode::with_pad(vm, role, value, otp)
    }

    /// What masking does to the machine: one more region, public, holding the
    /// masked value.
    pub open spec fn masked_memory(&self, memory: Seq<RegionView>) -> Seq<RegionView> {
        memory.push(
            RegionView {
                len: self.target().len as nat,
                public: true,
                value: Some(xor_bytes(memory[self.target().ptr as int].value->Some_0, self.pad())),
            },
        )
    }

    /// Why the value cannot be masked, if it cannot.
    pub open spec fn refusal(&self, vm: &Vm) -> Option<MpcTlsError> {
        if !vm.holds(self.target()) {
            Some(MpcTlsError::Decode { cause: DecodeError::UnknownReference })
        } else if vm.value(self.target()) is None {
            Some(MpcTlsError::Decode { cause: DecodeError::Unassigned })
        } else {
            None
        }
    }

    /// Masks the value inside the machine and reveals the masked value.
    fn mask(&self, vm: &mut Vm) -> (outcome: Result<Vec<u8>, MpcTlsError>)
        requires
            old(vm).wf(),
        ensures
            final(vm).wf(),
            match outcome {
                Ok(masked) => {
                    &&& self.refusal(old(vm)) is None
                    &&& masked@ == xor_bytes(old(vm).value(self.target())->Some_0, self.pad())
                    &&& final(vm)@ == self.masked_memory(old(vm)@)
                },
                Err(error) => self.refusal(old(vm)) == Some(error) && final(vm)@ == old(vm)@,
            },
    {
        proof {
            use_type_invariant(self);
        }
        let masked = match vm.peek(self.value) {
            Ok(bytes) => xor_vec(bytes, &self.otp),
            Err(cause) => {
                return Err(MpcTlsError::decode(cause));
            },
        };
        let region = vm.alloc_vec(self.value.len);
        let assigned = vm.assign(region, masked);
        assert(assigned is Ok);
        let revealed = vm.decode(region);
        assert(revealed is Ok);
        assert(vm@ =~= self.masked_memory(old(vm)@));
        match revealed {
            Ok(masked) => Ok(masked),
            Err(cause) => Err(MpcTlsError::decode(cause)),
        }
    }

    /// Turns `self` into a reveal to the leader alone.
    pub fn private(self, vm: &mut Vm) -> (outcome: Result<OneTimePadPrivate, MpcTlsError>)
        requires
            old(vm).wf(),
        ensures
            final(vm).wf(),
            match outcome {
                Ok(pad) => {
                    &&& self.refusal(old(vm)) is None
                    &&& pad.role() == self.role()
                    &&& pad.value() == old(vm).value(self.target())->Some_0
                    &&& final(vm)@ == self.masked_memory(old(vm)@)
                },
                Err(error) => self.refusal(old(vm)) == Some(error) && final(vm)@ == old(vm)@,
            },
    {
        proof {
            use_type_invariant(&self);
        }
        let masked = self.mask(vm)?;
        proof {
            lemma_xor_bytes_involution(old(vm).value(self.target())->Some_0, self.pad());
        }
        Ok(OneTimePadPrivate { role: self.role, masked, otp: self.otp })
    }

    /// Turns `self` into two shares of the value.
    pub fn shared(self, vm: &mut Vm) -> (outcome: Result<OneTimePadShared, MpcTlsError>)
        requires
            old(vm).wf(),
        ensures
            final(vm).wf(),
            match outcome {
                Ok(pad) => {
                    &&& self.refusal(old(vm)) is None
                    &&& pad.role() == self.role()
                    &&& pad.value() == old(vm).value(self.target())->Some_0
                    &&& final(vm)@ == self.masked_memory(old(vm)@)
                },
                Err(error) => self.refusal(old(vm)) == Some(error) && final(vm)@ == old(vm)@,
            },
    {
        proof {
            use_type_invariant(&self);
        }
        let masked = self.mask(vm)?;
        proof {
            lemma_xor_bytes_involution(old(vm).value(self.target())->Some_0, self.pad());
        }
        Ok(OneTimePadShared { role: self.role, masked, otp: self.otp })
    }
}

} // verus!
