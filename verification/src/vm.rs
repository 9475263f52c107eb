//! The virtual machine the two parties compute in, seen as one machine: a
//! memory of byte regions that are allocated, given a value once, and
//! revealed on request.

use crate::error::{DecodeError, VmError};
use vstd::prelude::*;

verus! {

/// A reference to a region of bytes in machine memory.
#[derive(Debug, Clone, Copy, PartialEq, Eq, Structural)]
pub struct Vector {
    pub ptr: usize,
    pub len: usize,
}

/// A reference to a region of exactly one block.
#[derive(Debug, Clone, Copy, PartialEq, Eq, Structural)]
pub struct Array {
    pub ptr: usize,
}

/// One region as a mathematical value: its length, whether both parties know
/// its content, and its value once it has one.
pub struct RegionView {
    pub len: nat,
    pub public: bool,
    pub value: Option<Seq<u8>>,
}

/// One region of machine memory.
#[derive(Debug, Clone)]
pub struct Region {
    len: usize,
    public: bool,
    value: Option<Vec<u8>>,
}

impl View for Region {
    type V = RegionView;

    closed spec fn view(&self) -> RegionView {
        RegionView {
            len: self.len as nat,
            public: self.public,
            value: match self.value {
                Some(bytes) => Some(bytes@),
                None => None,
            },
        }
    }
}

/// Machine memory.
#[derive(Debug, Clone)]
pub struct Vm {
    regions: Vec<Region>,
}

impl View for Vm {
    type V = Seq<RegionView>;

    /// The regions allocated so far, in order of allocation.
    closed spec fn view(&self) -> Seq<RegionView> {
        Seq::new(self.regions@.len(), |i: int| self.regions@[i]@)
    }
}

impl Vm {
    /// Every value has the length of its region.
    pub open spec fn wf(&self) -> bool {
        forall|i: int|
            0 <= i < self@.len() ==> (#[trigger] self@[i]).value is Some
                ==> self@[i].value->Some_0.len() == self@[i].len
    }

    /// True when `r` names a region of this machine, with its length.
    pub open spec fn holds(&self, r: Vector) -> bool {
        r.ptr < self@.len() && self@[r.ptr as int].len == r.len
    }

    /// The value of region `r`, if it has one.
    pub open spec fn value(&self, r: Vector) -> Option<Seq<u8>> {
        self@[r.ptr as int].value
    }

    /// A machine with empty memory.
    pub fn new() -> (vm: Vm)
        ensures
            vm.wf(),
            vm@.len() == 0,
    {
        Vm { regions: Vec::new() }
    }

    /// Tells whether `r` names a region of this machine, with its length.
    pub fn has_len(&self, r: Vector) -> (known: bool)
        ensures
            known == self.holds(r),
    {
        if r.ptr >= self.regions.len() {
            return false;
        }
        assert(self@[r.ptr as int] == self.regions@[r.ptr as int]@);
        self.regions[r.ptr].len == r.len
    }

    /// Number of regions allocated.
    pub fn len(&self) -> (count: usize)
        ensures
            count == self@.len(),
    {
        self.regions.len()
    }

    /// Allocates a region of `len` bytes without a value.
    pub fn alloc_vec(&mut self, len: usize) -> (r: Vector)
        requires
            old(self).wf(),
        ensures
            final(self).wf(),
            r.ptr == old(self)@.len(),
            r.len == len,
            final(self)@ == old(self)@.push(
                RegionView { len: len as nat, public: false, value: None },
            ),
    {
        let ptr = self.regions.len();
        self.regions.push(Region { len, public: false, value: None });
        assert(self@ =~= old(self)@.push(
            RegionView { len: len as nat, public: false, value: None },
        ));
        Vector { ptr, len }
    }

    /// Declares the content of region `r` known to both parties.
    pub fn mark_public(&mut self, r: Vector) -> (outcome: Result<(), VmError>)
        requires
            old(self).wf(),
        ensures
            final(self).wf(),
            outcome is Ok <==> old(self).holds(r),
            outcome is Err ==> outcome == Err::<(), VmError>(VmError::UnknownReference)
                && final(self)@ == old(self)@,
            outcome is Ok ==> final(self)@ == old(self)@.update(
                r.ptr as int,
                RegionView { public: true, ..old(self)@[r.ptr as int] },
            ),
    {
        if r.ptr >= self.regions.len() || self.regions[r.ptr].len != r.len {
            return Err(VmError::UnknownReference);
        }
        self.regions[r.ptr].public = true;
        assert(self@ =~= old(self)@.update(
            r.ptr as int,
            RegionView { public: true, ..old(self)@[r.ptr as int] },
        ));
        Ok(())
    }

    /// Gives region `r` its value. A region takes a value once, of its own
    /// length.
    pub fn assign(&mut self, r: Vector, value: Vec<u8>) -> (outcome: Result<(), VmError>)
        requires
            old(self).wf(),
        ensures
            final(self).wf(),
            outcome == assign_outcome(old(self)@, r, value@),
            outcome is Err ==> final(self)@ == old(self)@,
            outcome is Ok ==> final(self)@ == old(self)@.update(
                r.ptr as int,
                RegionView { value: Some(value@), ..old(self)@[r.ptr as int] },
            ),
    {
        if r.ptr >= self.regions.len() || self.regions[r.ptr].len != r.len {
            return Err(VmError::UnknownReference);
        }
        if self.regions[r.ptr].value.is_some() {
            return Err(VmError::AlreadyAssigned);
        }
        if value.len() != r.len {
            return Err(VmError::LengthMismatch);
        }
        let ghost bytes = value@;
        self.regions[r.ptr].value = Some(value);
        assert(self@ =~= old(self)@.update(
            r.ptr as int,
            RegionView { value: Some(bytes), ..old(self)@[r.ptr as int] },
        ));
        Ok(())
    }

    /// Reads the value of region `r` inside the machine, revealing it to no
    /// one.
    pub(crate) fn peek(&self, r: Vector) -> (outcome: Result<&Vec<u8>, DecodeError>)
        requires
            self.wf(),
        ensures
            match outcome {
                Ok(bytes) => self.holds(r) && self.value(r) == Some(bytes@) && bytes@.len()
                    == r.len,
                Err(DecodeError::UnknownReference) => !self.holds(r),
                Err(DecodeError::Unassigned) => self.holds(r) && self.value(r) is None,
            },
    {
        if r.ptr >= self.regions.len() || self.regions[r.ptr].len != r.len {
            return Err(DecodeError::UnknownReference);
        }
        assert(self@[r.ptr as int] == self.regions@[r.ptr as int]@);
        match &self.regions[r.ptr].value {
            Some(bytes) => Ok(bytes),
            None => Err(DecodeError::Unassigned),
        }
    }

    /// Reveals the value of region `r` to both parties, after which the
    /// region is public.
    pub fn decode(&mut self, r: Vector) -> (outcome: Result<Vec<u8>, DecodeError>)
        requires
            old(self).wf(),
        ensures
            final(self).wf(),
            match outcome {
                Ok(bytes) => {
                    &&& old(self).holds(r)
                    &&& old(self).value(r) == Some(bytes@)
                    &&& bytes@.len() == r.len
                    &&& final(self)@ == old(self)@.update(
                        r.ptr as int,
                        RegionView { public: true, ..old(self)@[r.ptr as int] },
                    )
                },
                Err(DecodeError::UnknownReference) => !old(self).holds(r) && final(self)@ == old(
                    self,
                )@,
                Err(DecodeError::Unassigned) => old(self).holds(r) && old(self).value(r) is None
                    && final(self)@ == old(self)@,
            },
    {
        let bytes = match self.peek(r) {
            Ok(bytes) => bytes.clone(),
            Err(cause) => {
                return Err(cause);
            },
        };
        self.regions[r.ptr].public = true;
        assert(self@ =~= old(self)@.update(
            r.ptr as int,
            RegionView { public: true, ..old(self)@[r.ptr as int] },
        ));
        Ok(bytes)
    }

    /// Tells whether region `r` is one of this machine's and public.
    pub fn is_public(&self, r: Vector) -> (public: bool)
        ensures
            public == (self.holds(r) && self@[r.ptr as int].public),
    {
        if r.ptr >= self.regions.len() {
            return false;
        }
        assert(self@[r.ptr as int] == self.regions@[r.ptr as int]@);
        self.regions[r.ptr].len == r.len && self.regions[r.ptr].public
    }
}

/// Whether a value can be assigned to region `r`, and why not.
pub open spec fn assign_outcome(memory: Seq<RegionView>, r: Vector, value: Seq<u8>) -> Result<
    (),
    VmError,
> {
    if !(r.ptr < memory.len() && memory[r.ptr as int].len == r.len) {
        Err(VmError::UnknownReference)
    } else if memory[r.ptr as int].value is Some {
        Err(VmError::AlreadyAssigned)
    } else if value.len() != r.len {
        Err(VmError::LengthMismatch)
    } else {
        Ok(())
    }
}

} // verus!
