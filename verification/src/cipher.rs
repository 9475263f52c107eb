//! AES-128 in counter mode as the record layer uses it: the counter block
//! layout, the keystream it yields, and a keystream generator bound to one
//! write key.

use aes::cipher::generic_array::GenericArray;
use aes::cipher::{BlockEncrypt, NewBlockCipher};
use aes::Aes128;
use crate::bytes::to_vec;
use crate::error::{MpcTlsError, VmError};
use crate::vm::{assign_outcome, Array, RegionView, Vector, Vm};
use vstd::prelude::*;

verus! {

/// Counter value of the block that masks the tag.
pub const J0_COUNTER: u32 = 1;

/// Counter value of the first payload block.
pub const START_COUNTER: u32 = 2;

/// Longest message one nonce can cover: every payload block needs a counter
/// value of its own between [`START_COUNTER`] and `u32::MAX`.
pub const MAX_MESSAGE_LEN: u64 = 0xffff_fffe * 16;

/// AES-128 encryption of one 16-byte block under a 16-byte key.
pub uninterp spec fn aes128_encrypt(key: Seq<u8>, block: Seq<u8>) -> Seq<u8>;

/// `Aes128::new` followed by `encrypt_block`, both of the `aes` crate: the
/// block cipher keyed with `key`, applied once to `block`. The result is named,
/// not described; that it has sixteen bytes follows from its type.
#[verifier::external_body]
pub(crate) fn aes128_encrypt_block(key: &[u8; 16], block: &[u8; 16]) -> (out: [u8; 16])
    ensures
        out@ == aes128_encrypt(key@, block@),
{
    let cipher = Aes128::new(&GenericArray::from(*key));
    let mut buffer = GenericArray::from(*block);
    cipher.encrypt_block(&mut buffer);
    buffer.into()
}

/// Big-endian bytes of a 32-bit counter.
pub open spec fn be32(counter: u32) -> Seq<u8> {
    seq![
        (counter / 0x100_0000) as u8,
        (counter / 0x1_0000 % 0x100) as u8,
        (counter / 0x100 % 0x100) as u8,
        (counter % 0x100) as u8,
    ]
}

/// The counter block: implicit IV, explicit nonce, then the counter.
pub open spec fn counter_block(iv: Seq<u8>, nonce: Seq<u8>, counter: u32) -> Seq<u8> {
    iv + nonce + be32(counter)
}

/// The encrypted counter-one block, which masks the tag.
pub open spec fn j0_block(key: Seq<u8>, iv: Seq<u8>, nonce: Seq<u8>) -> Seq<u8> {
    aes128_encrypt(key, counter_block(iv, nonce, J0_COUNTER))
}

/// Byte `index` of the keystream that starts at counter `start`.
pub open spec fn keystream_byte(
    key: Seq<u8>,
    iv: Seq<u8>,
    nonce: Seq<u8>,
    start: u32,
    index: int,
) -> u8 {
    aes128_encrypt(key, counter_block(iv, nonce, (start + index / 16) as u32))[index % 16]
}

/// `data` with the keystream that starts at counter `start` applied to it.
pub open spec fn keystream_apply(
    key: Seq<u8>,
    iv: Seq<u8>,
    nonce: Seq<u8>,
    start: u32,
    data: Seq<u8>,
) -> Seq<u8> {
    Seq::new(data.len(), |i: int| data[i] ^ keystream_byte(key, iv, nonce, start, i))
}

/// True when a message of `len` bytes can be covered from counter `start`
/// without the counter wrapping.
pub open spec fn counter_covers(start: u32, len: nat) -> bool {
    start + (len + 15) / 16 <= 0x1_0000_0000
}

/// Applying the same keystream twice gives the data back.
pub proof fn lemma_keystream_apply_involution(
    key: Seq<u8>,
    iv: Seq<u8>,
    nonce: Seq<u8>,
    start: u32,
    data: Seq<u8>,
)
    ensures
        keystream_apply(key, iv, nonce, start, keystream_apply(key, iv, nonce, start, data))
            == data,
{
    let once = keystream_apply(key, iv, nonce, start, data);
    let twice = keystream_apply(key, iv, nonce, start, once);
    assert forall|i: int| 0 <= i < data.len() implies twice[i] == data[i] by {
        let d = data[i];
        let k = keystream_byte(key, iv, nonce, start, i);
        assert((d ^ k) ^ k == d) by (bit_vector);
    }
    assert(twice =~= data);
}

/// Builds the counter block for `counter`.
pub fn make_counter_block(iv: &[u8; 4], nonce: &[u8; 8], counter: u32) -> (block: [u8; 16])
    ensures
        block@ == counter_block(iv@, nonce@, counter),
{
    let block: [u8; 16] = [
        iv[0],
        iv[1],
        iv[2],
        iv[3],
        nonce[0],
        nonce[1],
        nonce[2],
        nonce[3],
        nonce[4],
        nonce[5],
        nonce[6],
        nonce[7],
        (counter / 0x100_0000) as u8,
        (counter / 0x1_0000 % 0x100) as u8,
        (counter / 0x100 % 0x100) as u8,
        (counter % 0x100) as u8,
    ];
    assert(block@ =~= counter_block(iv@, nonce@, counter));
    block
}

/// A keystream generator bound to one AES-128 write key and its implicit IV.
#[derive(Debug, Clone, Copy)]
pub struct Keystream {
    key: [u8; 16],
    iv: [u8; 4],
}

impl Keystream {
    /// The write key.
    pub closed spec fn key(&self) -> Seq<u8> {
        self.key@
    }

    /// The implicit IV.
    pub closed spec fn iv(&self) -> Seq<u8> {
        self.iv@
    }

    /// Binds a generator to `key` and `iv`.
    pub fn new(key: [u8; 16], iv: [u8; 4]) -> (keystream: Keystream)
        ensures
            keystream.key() == key@,
            keystream.iv() == iv@,
    {
        Keystream { key, iv }
    }

    /// The block that masks the tag of the record sent under `nonce`.
    pub fn j0_value(&self, nonce: &[u8; 8]) -> (block: [u8; 16])
        ensures
            block@ == j0_block(self.key(), self.iv(), nonce@),
            j0_block(self.key(), self.iv(), nonce@).len() == 16,
    {
        let counter = make_counter_block(&self.iv, nonce, J0_COUNTER);
        aes128_encrypt_block(&self.key, &counter)
    }

    /// Derives, inside the machine, the block that masks the tag of the record
    /// sent under `nonce`. The block lands in a fresh region of its own.
    pub fn j0(&self, vm: &mut Vm, nonce: [u8; 8]) -> (outcome: Result<Array, MpcTlsError>)
        requires
            old(vm).wf(),
        ensures
            final(vm).wf(),
            outcome is Ok,
            outcome->Ok_0.ptr == old(vm)@.len(),
            j0_block(self.key(), self.iv(), nonce@).len() == 16,
            final(vm)@ == old(vm)@.push(
                RegionView {
                    len: 16,
                    public: false,
                    value: Some(j0_block(self.key(), self.iv(), nonce@)),
                },
            ),
    {
        let block = self.j0_value(&nonce);
        let bytes = to_vec(block.as_slice());
        let region = vm.alloc_vec(16);
        let assigned = vm.assign(region, bytes);
        assert(assigned is Ok);
        assert(vm@ =~= old(vm)@.push(
            RegionView {
                len: 16,
                public: false,
                value: Some(j0_block(self.key(), self.iv(), nonce@)),
            },
        ));
        Ok(Array { ptr: region.ptr })
    }

    /// A keystream chunk long enough for `len` bytes of payload, if one nonce
    /// can cover that many.
    pub fn chunk_sufficient(&self, len: usize) -> (outcome: Result<KeystreamChunk, MpcTlsError>)
        ensures
            outcome is Ok <==> counter_covers(START_COUNTER, len as nat),
            outcome is Err ==> outcome->Err_0 == MpcTlsError::Capacity,
            outcome is Ok ==> outcome->Ok_0.keystream() == *self,
    {
        if len as u64 > MAX_MESSAGE_LEN {
            return Err(MpcTlsError::Capacity);
        }
        Ok(KeystreamChunk { keystream: *self })
    }

    /// The subkey of the tag's hash: the all-zero block encrypted under the
    /// write key.
    pub fn hash_subkey(&self) -> (block: [u8; 16])
        ensures
            block@ == aes128_encrypt(self.key(), Seq::new(16, |i: int| 0u8)),
            block@.len() == 16,
    {
        let zero: [u8; 16] = [0u8; 16];
        assert(zero@ =~= Seq::new(16, |i: int| 0u8));
        aes128_encrypt_block(&self.key, &zero)
    }

    /// Applies the keystream that starts at counter `start` to `data`.
    pub fn transform(&self, nonce: &[u8; 8], start: u32, data: &Vec<u8>) -> (out: Vec<u8>)
        requires
            counter_covers(start, data@.len()),
        ensures
            out@ == keystream_apply(self.key(), self.iv(), nonce@, start, data@),
    {
        let mut out: Vec<u8> = Vec::with_capacity(data.len());
        let mut block: [u8; 16] = [0u8; 16];
        let mut i: usize = 0;
        while i < data.len()
            invariant
                i <= data@.len(),
                out@.len() == i,
                counter_covers(start, data@.len()),
                i % 16 != 0 ==> block@ == aes128_encrypt(
                    self.key(),
                    counter_block(self.iv(), nonce@, (start + i / 16) as u32),
                ),
                forall|j: int|
                    0 <= j < i ==> out@[j] == data@[j] ^ keystream_byte(
                        self.key(),
                        self.iv(),
                        nonce@,
                        start,
                        j,
                    ),
            decreases data@.len() - i,
        {
            if i % 16 == 0 {
                let counter: u32 = start + (i / 16) as u32;
                let input = make_counter_block(&self.iv, nonce, counter);
                block = aes128_encrypt_block(&self.key, &input);
            }
            out.push(data[i] ^ block[i % 16]);
            i += 1;
        }
        assert(out@ =~= keystream_apply(self.key(), self.iv(), nonce@, start, data@));
        out
    }
}

/// A stretch of keystream set aside for one record.
#[derive(Debug, Clone, Copy)]
pub struct KeystreamChunk {
    keystream: Keystream,
}

/// The output of a keystream chunk wired to an input region: the output region
/// gets its value when the input does.
#[derive(Debug, Clone, Copy)]
pub struct CipherOutput {
    keystream: Keystream,
    input: Vector,
    output: Vector,
}

impl KeystreamChunk {
    /// The generator the chunk was taken from.
    pub closed spec fn keystream(&self) -> Keystream {
        self.keystream
    }

    /// Wires the chunk to region `input`: allocates the region its output
    /// will land in.
    pub fn apply(&self, vm: &mut Vm, input: Vector) -> (outcome: Result<CipherOutput, VmError>)
        requires
            old(vm).wf(),
        ensures
            final(vm).wf(),
            outcome is Ok <==> old(vm).holds(input),
            outcome is Err ==> outcome->Err_0 == VmError::UnknownReference && final(vm)@ == old(
                vm,
            )@,
            outcome is Ok ==> {
                &&& outcome->Ok_0.keystream() == self.keystream()
                &&& outcome->Ok_0.input() == input
                &&& outcome->Ok_0.output().ptr == old(vm)@.len()
                &&& outcome->Ok_0.output().len == input.len
                &&& final(vm)@ == old(vm)@.push(
                    RegionView { len: input.len as nat, public: false, value: None },
                )
            },
    {
        if !vm.has_len(input) {
            return Err(VmError::UnknownReference);
        }
        let output = vm.alloc_vec(input.len);
        Ok(CipherOutput { keystream: self.keystream, input, output })
    }
}

/// Whether `message` can be assigned through a cipher output, and why not.
pub open spec fn cipher_assign_outcome(
    memory: Seq<RegionView>,
    input: Vector,
    output: Vector,
    start: u32,
    message: Seq<u8>,
) -> Result<(), VmError> {
    if !counter_covers(start, message.len()) {
        Err(VmError::CounterExhausted)
    } else if assign_outcome(memory, input, message) is Err {
        assign_outcome(memory, input, message)
    } else if input.ptr == output.ptr {
        Err(VmError::AlreadyAssigned)
    } else {
        assign_outcome(memory, output, message)
    }
}

impl CipherOutput {
    /// The generator behind the output.
    pub closed spec fn keystream(&self) -> Keystream {
        self.keystream
    }

    /// The region the message goes to.
    pub closed spec fn input(&self) -> Vector {
        self.input
    }

    /// The region the transformed message lands in.
    pub closed spec fn output(&self) -> Vector {
        self.output
    }

    /// Assigns `message` to the input region and, with it, the message under
    /// the keystream from counter `start` to the output region. Refused
    /// assignments leave the machine as it was.
    pub fn assign(self, vm: &mut Vm, nonce: [u8; 8], start: u32, message: Vec<u8>) -> (outcome:
        Result<Vector, VmError>)
        requires
            old(vm).wf(),
        ensures
            final(vm).wf(),
            match outcome {
                Ok(r) => {
                    &&& cipher_assign_outcome(
                        old(vm)@,
                        self.input(),
                        self.output(),
                        start,
                        message@,
                    )
                        is Ok
                    &&& r == self.output()
                    &&& final(vm)@ == old(vm)@.update(
                        self.input().ptr as int,
                        RegionView {
                            value: Some(message@),
                            ..old(vm)@[self.input().ptr as int]
                        },
                    ).update(
                        self.output().ptr as int,
                        RegionView {
                            value: Some(
                                keystream_apply(
                                    self.keystream().key(),
                                    self.keystream().iv(),
                                    nonce@,
                                    start,
                                    message@,
                                ),
                            ),
                            ..old(vm)@[self.output().ptr as int]
                        },
                    )
                },
                Err(cause) => {
                    &&& cipher_assign_outcome(
                        old(vm)@,
                        self.input(),
                        self.output(),
                        start,
                        message@,
                    )
                        == Err::<(), VmError>(cause)
                    &&& final(vm)@ == old(vm)@
                },
            },
    {
        let len = message.len() as u64;
        let blocks: u64 = len / 16 + if len % 16 == 0 {
            0
        } else {
            1
        };
        if blocks + start as u64 > 0x1_0000_0000 {
            return Err(VmError::CounterExhausted);
        }
        if !vm.has_len(self.input) {
            return Err(VmError::UnknownReference);
        }
        if vm.peek(self.input).is_ok() {
            return Err(VmError::AlreadyAssigned);
        }
        if message.len() != self.input.len {
            return Err(VmError::LengthMismatch);
        }
        if self.input.ptr == self.output.ptr {
            return Err(VmError::AlreadyAssigned);
        }
        if !vm.has_len(self.output) {
            return Err(VmError::UnknownReference);
        }
        if vm.peek(self.output).is_ok() {
            return Err(VmError::AlreadyAssigned);
        }
        if message.len() != self.output.len {
            return Err(VmError::LengthMismatch);
        }
        let transformed = self.keystream.transform(&nonce, start, &message);
        let first = vm.assign(self.input, message);
        let second = vm.assign(self.output, transformed);
        assert(first is Ok && second is Ok);
        Ok(self.output)
    }
}

} // verus!
