//! The oblivious-transfer extension of Keller, Orsini and Scholl
//! (<https://eprint.iacr.org/2015/546>), without its consistency check.
//!
//! The receiver stretches each of its 128 pairs of seeds into two rows of
//! bits, keeps the first row of each pair and sends the sender the second
//! one masked with the first and with its choices. The sender, which holds
//! one seed of each pair, arrives at the receiver's rows, each with the
//! choices mixed in exactly where its own base choice is set. Transposed,
//! the two matrices give per transfer a pair of blocks that differ by the
//! sender's base choices if the receiver's choice is set, and not at all if
//! it is clear; hashed, they mask the two inputs so that the receiver can
//! lift exactly one mask.

use crate::decode::{xor_bytes, xor_vec};
use crate::ot::block::{tweak_hash, Block};
use crate::ot::utils::{
    boolvec_to_u8vec, bytes_of, pack_bits, pack_boolvec, rows_of, transpose, transposed,
    u8vec_to_boolvec,
};
use rand::{RngCore, SeedableRng};
use rand_chacha::ChaCha12Rng;
use vstd::prelude::*;

verus! {

/// Number of base transfers, which is the width of the matrices.
pub const NBASE: usize = 128;

/// The ChaCha generator with twelve rounds, of `rand_chacha`.
#[verifier::external_type_specification]
#[verifier::external_body]
pub struct ExChaCha12Rng(ChaCha12Rng);

/// The `n` bytes that a ChaCha generator with twelve rounds yields when it is
/// seeded with `seed` and read from word `word_pos` of its stream on.
pub uninterp spec fn chacha12_stream(seed: Seq<u8>, word_pos: u128, n: usize) -> Seq<u8>;

/// `RngCore::fill_bytes` on a generator of the caller: `n` fresh bytes.
/// Nothing is promised of the bytes.
#[verifier::external_body]
fn random_bytes(rng: &mut ChaCha12Rng, n: usize) -> (bytes: Vec<u8>)
    ensures
        bytes@.len() == n,
{
    let mut bytes = vec![0u8; n];
    rng.fill_bytes(&mut bytes);
    bytes
}

/// `ChaCha12Rng::from_seed`, `set_word_pos` and `fill_bytes` of `rand_chacha`,
/// in this order: the generator seeded with `seed`, moved to word `word_pos`
/// of its stream, read for `n` bytes. The crate derives the bytes from the
/// seed and the position alone; the result is named, not described.
#[verifier::external_body]
fn stream_bytes(seed: &[u8; 32], word_pos: u128, n: usize) -> (bytes: Vec<u8>)
    ensures
        bytes@ == chacha12_stream(seed@, word_pos, n),
        bytes@.len() == n,
{
    let mut rng = ChaCha12Rng::from_seed(*seed);
    rng.set_word_pos(word_pos);
    let mut bytes = vec![0u8; n];
    rng.fill_bytes(&mut bytes);
    bytes
}

/// The position a generator is at after `n` more bytes have been read: it
/// moves on by whole words of four bytes.
pub open spec fn advanced(word_pos: u128, n: usize) -> u128 {
    word_pos.wrapping_add(((n + 3) / 4) as u128)
}

/// A pseudorandom generator: a seed and the position reached in its stream.
#[derive(Debug, Clone, Copy)]
pub struct Prg {
    pub seed: [u8; 32],
    pub word_pos: u128,
}

impl Prg {
    /// The seed that the block `k` stands for: its sixteen bytes, twice.
    pub open spec fn seed_of(k: Block) -> Seq<u8> {
        crate::record_layer::ghash::block_bytes(k.0) + crate::record_layer::ghash::block_bytes(k.0)
    }

    /// The generator seeded with the bytes of `k`, twice, at the start of its
    /// stream.
    pub fn from_block(k: Block) -> (prg: Prg)
        ensures
            prg.seed@ == Prg::seed_of(k),
            prg.word_pos == 0,
    {
        let half = k.to_be_bytes();
        let mut seed: [u8; 32] = [0u8; 32];
        let mut i: usize = 0;
        while i < 16
            invariant
                i <= 16,
                forall|n: int| 0 <= n < i ==> seed@[n] == half@[n] && seed@[n + 16] == half@[n],
            decreases 16 - i,
        {
            seed[i] = half[i];
            seed[i + 16] = half[i];
            i += 1;
        }
        assert(seed@ =~= half@ + half@);
        Prg { seed, word_pos: 0 }
    }

    /// Reads the next `n` bytes of the stream.
    pub fn fill_bytes(&mut self, n: usize) -> (bytes: Vec<u8>)
        ensures
            bytes@ == old(self)@.output(n),
            final(self)@ == old(self)@.after(n),
    {
        let bytes = stream_bytes(&self.seed, self.word_pos, n);
        assert(bytes@ =~= self@.output(n));
        let words: usize = n / 4 + if n % 4 == 0 {
            0
        } else {
            1
        };
        self.word_pos = self.word_pos.wrapping_add(words as u128);
        bytes
    }
}

/// How far a sender has come.
#[derive(Clone, Copy, Debug, PartialEq, Eq, Structural)]
pub enum OtSenderState {
    Initialized,
    BaseSetup,
    Setup,
    Complete,
}

/// How far a receiver has come.
#[derive(Clone, Copy, Debug, PartialEq, Eq, Structural)]
pub enum OtReceiverState {
    Initialized,
    BaseSetup,
    Setup,
    Complete,
}

impl OtSenderState {
    /// Position of the state in the order of the protocol.
    pub open spec fn rank(self) -> nat {
        match self {
            OtSenderState::Initialized => 0,
            OtSenderState::BaseSetup => 1,
            OtSenderState::Setup => 2,
            OtSenderState::Complete => 3,
        }
    }
}

impl OtReceiverState {
    /// Position of the state in the order of the protocol.
    pub open spec fn rank(self) -> nat {
        match self {
            OtReceiverState::Initialized => 0,
            OtReceiverState::BaseSetup => 1,
            OtReceiverState::Setup => 2,
            OtReceiverState::Complete => 3,
        }
    }
}

/// Why a sender refuses.
#[derive(Clone, Copy, Debug, PartialEq, Eq, Structural)]
pub enum OtSenderCoreError {
    /// The base transfers have not delivered the 128 seeds.
    BaseOTNotSetup,
    /// The extension has not been set up.
    NotSetup,
}

/// Why a receiver refuses.
#[derive(Clone, Copy, Debug, PartialEq, Eq, Structural)]
pub enum OtReceiverCoreError {
    /// The base transfers have not been made.
    BaseOTNotSetup,
    /// The extension has not been set up.
    NotSetup,
}

/// What the sender sends: per transfer, its two inputs, each under its own
/// mask.
#[derive(Clone, Debug, PartialEq)]
pub struct OtSenderPayload {
    pub encrypted_values: Vec<[Block; 2]>,
}

/// What the receiver sends to set the extension up: the number of columns and,
/// per base transfer, the masked second row.
#[derive(Clone, Debug, PartialEq)]
pub struct OtReceiverSetup {
    pub ncols: usize,
    pub table: Vec<Vec<u8>>,
}

impl OtReceiverSetup {
    /// There is one row per base transfer, and every row holds exactly
    /// `ncols` bits.
    pub open spec fn wf(&self) -> bool {
        &&& self.table@.len() == NBASE
        &&& forall|j: int| 0 <= j < NBASE ==> 8 * (#[trigger] self.table@[j])@.len() == self.ncols
    }

    /// Tells whether the setup is well formed, which is what a sender asks of
    /// one before it builds on it.
    pub fn is_wf(&self) -> (valid: bool)
        ensures
            valid == self.wf(),
    {
        if self.table.len() != NBASE {
            return false;
        }
        if self.ncols % 8 != 0 {
            assert(8 * self.table@[0]@.len() != self.ncols);
            return false;
        }
        let mut j: usize = 0;
        while j < NBASE
            invariant
                j <= NBASE == self.table@.len(),
                self.ncols % 8 == 0,
                forall|k: int| 0 <= k < j ==> 8 * (#[trigger] self.table@[k])@.len() == self.ncols,
            decreases NBASE - j,
        {
            if self.table[j].len() != self.ncols / 8 {
                return false;
            }
            j += 1;
        }
        true
    }
}

/// A generator as a mathematical value.
pub struct PrgView {
    pub seed: Seq<u8>,
    pub word_pos: u128,
}

impl View for Prg {
    type V = PrgView;

    open spec fn view(&self) -> PrgView {
        PrgView { seed: self.seed@, word_pos: self.word_pos }
    }
}

impl PrgView {
    /// The next `n` bytes of the stream.
    pub open spec fn output(self, n: usize) -> Seq<u8> {
        Seq::new(n as nat, |k: int| chacha12_stream(self.seed, self.word_pos, n)[k])
    }

    /// The generator after `n` bytes have been read.
    pub open spec fn after(self, n: usize) -> PrgView {
        PrgView { seed: self.seed, word_pos: advanced(self.word_pos, n) }
    }
}

/// The generators of a list, as mathematical values.
pub open spec fn prg_views(rngs: Seq<Prg>) -> Seq<PrgView> {
    Seq::new(rngs.len(), |j: int| rngs[j]@)
}

/// The generators that a sender's seeds stand for, each at the start of its
/// stream.
pub open spec fn fresh_rngs(seeds: Seq<Block>) -> Seq<PrgView> {
    Seq::new(seeds.len(), |j: int| PrgView { seed: Prg::seed_of(seeds[j]), word_pos: 0 })
}

/// A sender as a mathematical value.
pub struct Sender {
    pub state: OtSenderState,
    pub key: Seq<u8>,
    pub base_choice: Seq<bool>,
    pub seeds: Option<Seq<Block>>,
    pub rngs: Option<Seq<PrgView>>,
    pub table: Option<Seq<u128>>,
}

impl Sender {
    /// The sender has 128 base choices and, from each state on, what that
    /// state has brought: the seeds and their generators, then the table.
    pub open spec fn wf(self) -> bool {
        &&& self.base_choice.len() == NBASE
        &&& self.state.rank() >= 1 ==> self.seeds is Some && self.rngs is Some
            && self.rngs->Some_0.len() == NBASE
        &&& self.state.rank() >= 2 ==> self.table is Some
    }

    /// The rows the sender arrives at from the receiver's rows `us`, each of
    /// `n` bytes: the output of its generator, with the receiver's row mixed
    /// in where the base choice is set.
    pub open spec fn rows(self, us: Seq<Seq<u8>>, n: usize) -> Seq<Seq<u8>> {
        Seq::new(
            NBASE as nat,
            |j: int|
                if self.base_choice[j] {
                    xor_bytes(self.rngs->Some_0[j].output(n), us[j])
                } else {
                    self.rngs->Some_0[j].output(n)
                },
        )
    }

    /// The sender after the seeds of the base transfers have arrived.
    pub open spec fn base_receive(self, seeds: Seq<Block>) -> (
        Sender,
        Result<(), OtSenderCoreError>,
    ) {
        if seeds.len() != NBASE {
            (self, Err(OtSenderCoreError::BaseOTNotSetup))
        } else {
            (
                Sender {
                    seeds: Some(seeds),
                    rngs: Some(fresh_rngs(seeds)),
                    state: OtSenderState::BaseSetup,
                    ..self
                },
                Ok(()),
            )
        }
    }

    /// The sender after the receiver's setup has arrived: every generator has
    /// been read for one row, and the rows, transposed, make the table.
    pub open spec fn extension_setup(self, setup: OtReceiverSetup) -> (
        Sender,
        Result<(), OtSenderCoreError>,
    ) {
        if self.state.rank() < 1 {
            (self, Err(OtSenderCoreError::BaseOTNotSetup))
        } else {
            let n = (setup.ncols / 8) as usize;
            (
                Sender {
                    rngs: Some(
                        Seq::new(NBASE as nat, |j: int| self.rngs->Some_0[j].after(n)),
                    ),
                    table: Some(
                        transposed(self.rows(rows_of(setup.table@), n), setup.ncols as nat),
                    ),
                    state: OtSenderState::Setup,
                    ..self
                },
                Ok(()),
            )
        }
    }

    /// The number that the sender's masks of one transfer differ by: its base
    /// choices, packed.
    pub open spec fn delta(self) -> u128 {
        pack_bits(self.base_choice)
    }

    /// The masked first input of transfer `j`.
    pub open spec fn masked_first(self, j: int, input: Block) -> Block {
        Block(tweak_hash(self.key, self.table->Some_0[j], j as usize) ^ input.0)
    }

    /// The masked second input of transfer `j`.
    pub open spec fn masked_second(self, j: int, input: Block) -> Block {
        Block(tweak_hash(self.key, self.table->Some_0[j] ^ self.delta(), j as usize) ^ input.0)
    }
}

/// The sender of the extension.
pub struct OtSenderCore {
    rng: ChaCha12Rng,
    cipher: [u8; 16],
    state: OtSenderState,
    base_choice: Vec<bool>,
    seeds: Option<Vec<Block>>,
    rngs: Option<Vec<Prg>>,
    table: Option<Vec<u128>>,
}

impl View for OtSenderCore {
    type V = Sender;

    closed spec fn view(&self) -> Sender {
        Sender {
            state: self.state,
            key: self.cipher@,
            base_choice: self.base_choice@,
            seeds: match self.seeds {
                Some(seeds) => Some(seeds@),
                None => None,
            },
            rngs: match self.rngs {
                Some(rngs) => Some(prg_views(rngs@)),
                None => None,
            },
            table: match self.table {
                Some(table) => Some(table@),
                None => None,
            },
        }
    }
}

impl OtSenderCore {
    /// Creates a sender that hashes under the cipher keyed with `cipher` and
    /// draws its 128 base choices from `rng`.
    pub fn new(mut rng: ChaCha12Rng, cipher: [u8; 16]) -> (sender: OtSenderCore)
        ensures
            sender@.wf(),
            sender@.state == OtSenderState::Initialized,
            sender@.key == cipher@,
            sender@.seeds is None,
            sender@.rngs is None,
            sender@.table is None,
    {
        let base_choice = random_bytes(&mut rng, NBASE / 8);
        OtSenderCore {
            rng,
            cipher,
            state: OtSenderState::Initialized,
            base_choice: u8vec_to_boolvec(base_choice.as_slice()),
            seeds: None,
            rngs: None,
            table: None,
        }
    }

    /// Installs the seeds and the generators they stand for.
    fn set_seeds(&mut self, seeds: Vec<Block>)
        ensures
            final(self)@ == (Sender {
                seeds: Some(seeds@),
                rngs: Some(fresh_rngs(seeds@)),
                ..old(self)@
            }),
    {
        let mut rngs: Vec<Prg> = Vec::with_capacity(seeds.len());
        let mut j: usize = 0;
        while j < seeds.len()
            invariant
                j <= seeds@.len(),
                rngs@.len() == j,
                forall|n: int| 0 <= n < j ==> (#[trigger] rngs@[n])@ == fresh_rngs(seeds@)[n],
            decreases seeds@.len() - j,
        {
            rngs.push(Prg::from_block(seeds[j]));
            j += 1;
        }
        assert(prg_views(rngs@) =~= fresh_rngs(seeds@));
        self.seeds = Some(seeds);
        self.rngs = Some(rngs);
    }

    /// How far the sender has come.
    pub fn state(&self) -> (state: OtSenderState)
        ensures
            state == self@.state,
    {
        self.state
    }

    /// Number of transfers the table has masks for; none before the
    /// extension is set up.
    pub fn capacity(&self) -> (rows: usize)
        ensures
            rows == match self@.table {
                Some(table) => table.len(),
                None => 0,
            },
    {
        match &self.table {
            Some(table) => table.len(),
            None => 0,
        }
    }

    /// The base choices: which seed of each pair the base transfers are to
    /// deliver.
    pub fn base_choice(&self) -> (choice: &Vec<bool>)
        ensures
            choice@ == self@.base_choice,
    {
        &self.base_choice
    }

    /// The seeds the base transfers delivered, once they have.
    pub fn seeds(&self) -> (seeds: &Option<Vec<Block>>)
        ensures
            match seeds {
                Some(seeds) => self@.seeds == Some(seeds@),
                None => self@.seeds is None,
            },
    {
        &self.seeds
    }

    /// The generators of the seeds, once the seeds are there.
    pub fn rngs(&self) -> (rngs: &Option<Vec<Prg>>)
        ensures
            match rngs {
                Some(rngs) => self@.rngs == Some(prg_views(rngs@)),
                None => self@.rngs is None,
            },
    {
        &self.rngs
    }

    /// Takes the seeds that the base transfers delivered, one per base choice.
    pub fn base_receive(&mut self, seeds: Vec<Block>) -> (outcome: Result<(), OtSenderCoreError>)
        requires
            old(self)@.wf(),
        ensures
            final(self)@.wf(),
            (final(self)@, outcome) == old(self)@.base_receive(seeds@),
    {
        if seeds.len() != NBASE {
            return Err(OtSenderCoreError::BaseOTNotSetup);
        }
        self.set_seeds(seeds);
        self.state = OtSenderState::BaseSetup;
        Ok(())
    }
}

impl OtSenderCore {
    /// Takes the receiver's setup and builds the table of masks from it.
    pub fn extension_setup(&mut self, receiver_setup: OtReceiverSetup) -> (outcome: Result<
        (),
        OtSenderCoreError,
    >)
        requires
            old(self)@.wf(),
            receiver_setup.wf(),
        ensures
            final(self)@.wf(),
            (final(self)@, outcome) == old(self)@.extension_setup(receiver_setup),
    {
        match self.state {
            OtSenderState::Initialized => {
                return Err(OtSenderCoreError::BaseOTNotSetup);
            },
            _ => {},
        }
        let ncols = receiver_setup.table[0].len() * 8;
        let n = ncols / 8;
        let us = receiver_setup.table;
        let mut qs: Vec<Vec<u8>> = Vec::with_capacity(NBASE);
        let mut rngs = match self.rngs.take() {
            Some(rngs) => rngs,
            None => {
                return Err(OtSenderCoreError::BaseOTNotSetup);
            },
        };
        let ghost before = old(self)@;
        let mut j: usize = 0;
        while j < NBASE
            invariant
                j <= NBASE,
                before == old(self)@,
                before.wf(),
                before.state.rank() >= 1,
                self.base_choice@ == before.base_choice,
                receiver_setup.wf(),
                us@ == receiver_setup.table@,
                ncols == receiver_setup.ncols,
                n == ncols / 8,
                ncols == 8 * n,
                rngs@.len() == NBASE,
                qs@.len() == j,
                forall|k: int|
                    0 <= k < j ==> (#[trigger] qs@[k])@ == before.rows(rows_of(us@), n)[k]
                        && qs@[k]@.len() == n,
                forall|k: int|
                    0 <= k < j ==> (#[trigger] rngs@[k])@ == before.rngs->Some_0[k].after(n),
                forall|k: int| j <= k < NBASE ==> (#[trigger] rngs@[k])@ == before.rngs->Some_0[k],
            decreases NBASE - j,
        {
            let mut rng = rngs[j];
            let stream = rng.fill_bytes(n);
            rngs[j] = rng;
            let row = if self.base_choice[j] {
                xor_vec(&stream, &us[j])
            } else {
                stream
            };
            qs.push(row);
            j += 1;
        }
        proof {
            assert(rows_of(qs@) =~= before.rows(rows_of(us@), n));
            assert(prg_views(rngs@) =~= Seq::new(
                NBASE as nat,
                |k: int| before.rngs->Some_0[k].after(n),
            ));
        }
        self.table = Some(transpose(&qs, ncols));
        self.rngs = Some(rngs);
        self.state = OtSenderState::Setup;
        Ok(())
    }

    /// Masks the pairs of inputs, one pair per transfer.
    pub fn send(&mut self, inputs: &[[Block; 2]]) -> (outcome: Result<
        OtSenderPayload,
        OtSenderCoreError,
    >)
        requires
            old(self)@.wf(),
            old(self)@.state.rank() >= 2 ==> inputs@.len() <= old(self)@.table->Some_0.len(),
        ensures
            final(self)@.wf(),
            match outcome {
                Err(error) => {
                    &&& old(self)@.state.rank() < 2
                    &&& error == OtSenderCoreError::NotSetup
                    &&& final(self)@ == old(self)@
                },
                Ok(payload) => {
                    &&& old(self)@.state.rank() >= 2
                    &&& final(self)@ == (Sender { state: OtSenderState::Complete, ..old(self)@ })
                    &&& payload.encrypted_values@.len() == inputs@.len()
                    &&& forall|j: int|
                        0 <= j < inputs@.len() ==> {
                            &&& (#[trigger] payload.encrypted_values@[j])[0] == old(
                                self,
                            )@.masked_first(j, inputs@[j][0])
                            &&& payload.encrypted_values@[j][1] == old(self)@.masked_second(
                                j,
                                inputs@[j][1],
                            )
                        }
                },
            },
    {
        match self.state {
            OtSenderState::Initialized | OtSenderState::BaseSetup => {
                return Err(OtSenderCoreError::NotSetup);
            },
            _ => {},
        }
        let delta = Block::new(pack_boolvec(self.base_choice.as_slice()));
        let count = inputs.len();
        let mut encrypted_values: Vec<[Block; 2]> = Vec::with_capacity(count);
        let table = match &self.table {
            Some(table) => table,
            None => {
                return Err(OtSenderCoreError::NotSetup);
            },
        };
        let mut j: usize = 0;
        while j < count
            invariant
                j <= count == inputs@.len() <= table@.len(),
                self@ == old(self)@,
                self@.table == Some(table@),
                self@.key == self.cipher@,
                delta.0 == self@.delta(),
                encrypted_values@.len() == j,
                forall|k: int|
                    0 <= k < j ==> {
                        &&& (#[trigger] encrypted_values@[k])[0] == self@.masked_first(
                            k,
                            inputs@[k][0],
                        )
                        &&& encrypted_values@[k][1] == self@.masked_second(k, inputs@[k][1])
                    },
            decreases count - j,
        {
            let input = &inputs[j];
            let q = Block::new(table[j]);
            let y0 = q.hash_tweak(&self.cipher, j).xor(input[0]);
            let y1 = q.xor(delta).hash_tweak(&self.cipher, j).xor(input[1]);
            encrypted_values.push([y0, y1]);
            j += 1;
        }
        self.state = OtSenderState::Complete;
        Ok(OtSenderPayload { encrypted_values })
    }
}

/// The two generators that a pair of seeds stands for, each at the start of
/// its stream.
pub open spec fn fresh_pairs(seeds: Seq<[Block; 2]>) -> Seq<(PrgView, PrgView)> {
    Seq::new(
        seeds.len(),
        |j: int|
            (
                PrgView { seed: Prg::seed_of(seeds[j][0]), word_pos: 0 },
                PrgView { seed: Prg::seed_of(seeds[j][1]), word_pos: 0 },
            ),
    )
}

/// The generators of a list of pairs, as mathematical values.
pub open spec fn pair_views(rngs: Seq<[Prg; 2]>) -> Seq<(PrgView, PrgView)> {
    Seq::new(rngs.len(), |j: int| (rngs[j][0]@, rngs[j][1]@))
}

/// The number of columns for `m` transfers: `m` rounded up to whole bytes.
pub open spec fn columns_for(m: nat) -> nat {
    if m % 8 == 0 {
        m
    } else {
        (m + 8 - m % 8) as nat
    }
}

/// A receiver as a mathematical value.
pub struct Receiver {
    pub state: OtReceiverState,
    pub key: Seq<u8>,
    pub seeds: Option<Seq<[Block; 2]>>,
    pub rngs: Option<Seq<(PrgView, PrgView)>>,
    pub table: Option<Seq<u128>>,
}

impl Receiver {
    /// The receiver has, from each state on, what that state has brought:
    /// the pairs of seeds and their generators, then the table.
    pub open spec fn wf(self) -> bool {
        &&& self.state.rank() >= 1 ==> self.seeds is Some && self.rngs is Some
            && self.rngs->Some_0.len() == NBASE
        &&& self.state.rank() >= 2 ==> self.table is Some
    }

    /// The rows the receiver keeps, each of `n` bytes: the output of the
    /// first generator of each pair.
    pub open spec fn kept_rows(self, n: usize) -> Seq<Seq<u8>> {
        Seq::new(NBASE as nat, |j: int| self.rngs->Some_0[j].0.output(n))
    }

    /// The rows the receiver sends: the output of the second generator of
    /// each pair, masked with the row kept and with the choices `r`.
    pub open spec fn sent_rows(self, r: Seq<u8>, n: usize) -> Seq<Seq<u8>> {
        Seq::new(
            NBASE as nat,
            |j: int|
                xor_bytes(
                    xor_bytes(self.rngs->Some_0[j].1.output(n), self.rngs->Some_0[j].0.output(n)),
                    r,
                ),
        )
    }

    /// The receiver after it has set the extension up for `choice`: every
    /// generator has been read for one row, and the rows kept, transposed,
    /// make the table.
    pub open spec fn after_setup(self, choice: Seq<bool>) -> Receiver {
        let ncols = columns_for(choice.len());
        let n = (ncols / 8) as usize;
        Receiver {
            rngs: Some(
                Seq::new(
                    NBASE as nat,
                    |j: int| (self.rngs->Some_0[j].0.after(n), self.rngs->Some_0[j].1.after(n)),
                ),
            ),
            table: Some(transposed(self.kept_rows(n), ncols)),
            state: OtReceiverState::Setup,
            ..self
        }
    }

    /// What transfer `j` delivers: the masked input chosen, with its mask
    /// lifted.
    pub open spec fn unmasked(self, j: int, choice: bool, pair: [Block; 2]) -> Block {
        Block(
            (if choice {
                pair[1]
            } else {
                pair[0]
            }).0 ^ tweak_hash(self.key, self.table->Some_0[j], j as usize),
        )
    }
}

/// The receiver of the extension.
pub struct OtReceiverCore {
    cipher: [u8; 16],
    rng: ChaCha12Rng,
    state: OtReceiverState,
    seeds: Option<Vec<[Block; 2]>>,
    rngs: Option<Vec<[Prg; 2]>>,
    table: Option<Vec<u128>>,
}

impl View for OtReceiverCore {
    type V = Receiver;

    closed spec fn view(&self) -> Receiver {
        Receiver {
            state: self.state,
            key: self.cipher@,
            seeds: match self.seeds {
                Some(seeds) => Some(seeds@),
                None => None,
            },
            rngs: match self.rngs {
                Some(rngs) => Some(pair_views(rngs@)),
                None => None,
            },
            table: match self.table {
                Some(table) => Some(table@),
                None => None,
            },
        }
    }
}

impl OtReceiverCore {
    /// Creates a receiver that hashes under the cipher keyed with `cipher`
    /// and draws its seeds from `rng`.
    pub fn new(rng: ChaCha12Rng, cipher: [u8; 16]) -> (receiver: OtReceiverCore)
        ensures
            receiver@.wf(),
            receiver@.state == OtReceiverState::Initialized,
            receiver@.key == cipher@,
            receiver@.seeds is None,
            receiver@.rngs is None,
            receiver@.table is None,
    {
        OtReceiverCore {
            rng,
            cipher,
            state: OtReceiverState::Initialized,
            seeds: None,
            rngs: None,
            table: None,
        }
    }

    /// Installs the pairs of seeds and the generators they stand for.
    fn set_seeds(&mut self, seeds: Vec<[Block; 2]>)
        ensures
            final(self)@ == (Receiver {
                seeds: Some(seeds@),
                rngs: Some(fresh_pairs(seeds@)),
                ..old(self)@
            }),
    {
        let mut rngs: Vec<[Prg; 2]> = Vec::with_capacity(seeds.len());
        let mut j: usize = 0;
        while j < seeds.len()
            invariant
                j <= seeds@.len(),
                rngs@.len() == j,
                forall|n: int|
                    0 <= n < j ==> ((#[trigger] rngs@[n])[0]@, rngs@[n][1]@) == fresh_pairs(
                        seeds@,
                    )[n],
            decreases seeds@.len() - j,
        {
            let k = &seeds[j];
            rngs.push([Prg::from_block(k[0]), Prg::from_block(k[1])]);
            j += 1;
        }
        assert(pair_views(rngs@) =~= fresh_pairs(seeds@));
        self.seeds = Some(seeds);
        self.rngs = Some(rngs);
    }

    /// How far the receiver has come.
    pub fn state(&self) -> (state: OtReceiverState)
        ensures
            state == self@.state,
    {
        self.state
    }

    /// Number of transfers the table has masks for; none before the
    /// extension is set up.
    pub fn capacity(&self) -> (rows: usize)
        ensures
            rows == match self@.table {
                Some(table) => table.len(),
                None => 0,
            },
    {
        match &self.table {
            Some(table) => table.len(),
            None => 0,
        }
    }

    /// The pairs of seeds, once they have been drawn.
    pub fn seeds(&self) -> (seeds: &Option<Vec<[Block; 2]>>)
        ensures
            match seeds {
                Some(seeds) => self@.seeds == Some(seeds@),
                None => self@.seeds is None,
            },
    {
        &self.seeds
    }

    /// The generators of the seeds, once the seeds are there.
    pub fn rngs(&self) -> (rngs: &Option<Vec<[Prg; 2]>>)
        ensures
            match rngs {
                Some(rngs) => self@.rngs == Some(pair_views(rngs@)),
                None => self@.rngs is None,
            },
    {
        &self.rngs
    }

    /// Draws the 128 pairs of seeds and hands them out for the base
    /// transfers, which deliver one seed of each pair to the sender.
    pub fn base_send(&mut self) -> (outcome: Result<Vec<[Block; 2]>, OtReceiverCoreError>)
        requires
            old(self)@.wf(),
        ensures
            final(self)@.wf(),
            outcome is Ok,
            outcome->Ok_0@.len() == NBASE,
            final(self)@ == (Receiver {
                seeds: Some(outcome->Ok_0@),
                rngs: Some(fresh_pairs(outcome->Ok_0@)),
                state: OtReceiverState::BaseSetup,
                ..old(self)@
            }),
    {
        let mut seeds: Vec<[Block; 2]> = Vec::with_capacity(NBASE);
        let mut sent: Vec<[Block; 2]> = Vec::with_capacity(NBASE);
        let mut i: usize = 0;
        while i < NBASE
            invariant
                i <= NBASE,
                self@ == old(self)@,
                seeds@.len() == i,
                sent@ == seeds@,
            decreases NBASE - i,
        {
            let first = random_bytes(&mut self.rng, 16);
            let second = random_bytes(&mut self.rng, 16);
            let pair = [
                Block::from_be_bytes(crate::bytes::array16(first.as_slice(), 0)),
                Block::from_be_bytes(crate::bytes::array16(second.as_slice(), 0)),
            ];
            seeds.push(pair);
            sent.push(pair);
            i += 1;
        }
        self.set_seeds(seeds);
        self.state = OtReceiverState::BaseSetup;
        Ok(sent)
    }
}

impl OtReceiverCore {
    /// Sets the extension up for the choices `choice`: builds the table of
    /// masks and the rows to send to the sender.
    pub fn extension_setup(&mut self, choice: &[bool]) -> (outcome: Result<
        OtReceiverSetup,
        OtReceiverCoreError,
    >)
        requires
            old(self)@.wf(),
            choice@.len() + 8 <= usize::MAX,
        ensures
            final(self)@.wf(),
            match outcome {
                Err(error) => {
                    &&& old(self)@.state.rank() < 1
                    &&& error == OtReceiverCoreError::BaseOTNotSetup
                    &&& final(self)@ == old(self)@
                },
                Ok(setup) => {
                    &&& old(self)@.state.rank() >= 1
                    &&& final(self)@ == old(self)@.after_setup(choice@)
                    &&& setup.wf()
                    &&& setup.ncols == columns_for(choice@.len())
                    &&& rows_of(setup.table@) == old(self)@.sent_rows(
                        bytes_of(choice@),
                        (setup.ncols / 8) as usize,
                    )
                },
            },
    {
        match self.state {
            OtReceiverState::Initialized => {
                return Err(OtReceiverCoreError::BaseOTNotSetup);
            },
            _ => {},
        }
        let r = boolvec_to_u8vec(choice);
        let m = choice.len();
        let ncols = if m % 8 != 0 {
            m + (8 - m % 8)
        } else {
            m
        };
        let n = ncols / 8;
        let mut ts: Vec<Vec<u8>> = Vec::with_capacity(NBASE);
        let mut gs: Vec<Vec<u8>> = Vec::with_capacity(NBASE);
        let mut rngs = match self.rngs.take() {
            Some(rngs) => rngs,
            None => {
                return Err(OtReceiverCoreError::BaseOTNotSetup);
            },
        };
        let ghost before = old(self)@;
        let mut j: usize = 0;
        while j < NBASE
            invariant
                j <= NBASE,
                before == old(self)@,
                before.wf(),
                before.state.rank() >= 1,
                r@ == bytes_of(choice@),
                r@.len() == n,
                ncols == 8 * n,
                rngs@.len() == NBASE,
                ts@.len() == j,
                gs@.len() == j,
                forall|k: int|
                    0 <= k < j ==> (#[trigger] ts@[k])@ == before.kept_rows(n)[k] && ts@[k]@.len()
                        == n,
                forall|k: int|
                    0 <= k < j ==> (#[trigger] gs@[k])@ == before.sent_rows(r@, n)[k]
                        && gs@[k]@.len() == n,
                forall|k: int|
                    0 <= k < j ==> ((#[trigger] rngs@[k])[0]@, rngs@[k][1]@) == (
                        before.rngs->Some_0[k].0.after(n),
                        before.rngs->Some_0[k].1.after(n),
                    ),
                forall|k: int|
                    j <= k < NBASE ==> ((#[trigger] rngs@[k])[0]@, rngs@[k][1]@)
                        == before.rngs->Some_0[k],
            decreases NBASE - j,
        {
            let pair = &rngs[j];
            let mut first = pair[0];
            let mut second = pair[1];
            let t = first.fill_bytes(n);
            let g = second.fill_bytes(n);
            rngs[j] = [first, second];
            let masked = xor_vec(&xor_vec(&g, &t), &r);
            ts.push(t);
            gs.push(masked);
            j += 1;
        }
        proof {
            assert(rows_of(ts@) =~= before.kept_rows(n));
            assert(rows_of(gs@) =~= before.sent_rows(r@, n));
            assert(pair_views(rngs@) =~= Seq::new(
                NBASE as nat,
                |k: int| (before.rngs->Some_0[k].0.after(n), before.rngs->Some_0[k].1.after(n)),
            ));
        }
        self.table = Some(transpose(&ts, ncols));
        self.rngs = Some(rngs);
        self.state = OtReceiverState::Setup;
        Ok(OtReceiverSetup { ncols, table: gs })
    }

    /// Lifts, per transfer, the mask of the input chosen.
    pub fn receive(&mut self, choice: &[bool], payload: OtSenderPayload) -> (outcome: Result<
        Vec<Block>,
        OtReceiverCoreError,
    >)
        requires
            old(self)@.wf(),
            old(self)@.state.rank() >= 2 ==> choice@.len() <= old(self)@.table->Some_0.len()
                && choice@.len() <= payload.encrypted_values@.len(),
        ensures
            final(self)@.wf(),
            match outcome {
                Err(error) => {
                    &&& old(self)@.state.rank() < 2
                    &&& error == OtReceiverCoreError::NotSetup
                    &&& final(self)@ == old(self)@
                },
                Ok(values) => {
                    &&& old(self)@.state.rank() >= 2
                    &&& final(self)@ == (Receiver {
                        state: OtReceiverState::Complete,
                        ..old(self)@
                    })
                    &&& values@.len() == choice@.len()
                    &&& forall|j: int|
                        0 <= j < choice@.len() ==> #[trigger] values@[j] == old(self)@.unmasked(
                            j,
                            choice@[j],
                            payload.encrypted_values@[j],
                        )
                },
            },
    {
        match self.state {
            OtReceiverState::Initialized | OtReceiverState::BaseSetup => {
                return Err(OtReceiverCoreError::NotSetup);
            },
            _ => {},
        }
        let count = choice.len();
        let mut values: Vec<Block> = Vec::with_capacity(count);
        let ts = match &self.table {
            Some(table) => table,
            None => {
                return Err(OtReceiverCoreError::NotSetup);
            },
        };
        let mut j: usize = 0;
        while j < count
            invariant
                j <= count == choice@.len() <= ts@.len(),
                count <= payload.encrypted_values@.len(),
                self@ == old(self)@,
                self@.table == Some(ts@),
                self@.key == self.cipher@,
                values@.len() == j,
                forall|k: int|
                    0 <= k < j ==> #[trigger] values@[k] == self@.unmasked(
                        k,
                        choice@[k],
                        payload.encrypted_values@[k],
                    ),
            decreases count - j,
        {
            let t = Block::new(ts[j]);
            let pair = &payload.encrypted_values[j];
            let y = if choice[j] {
                pair[1]
            } else {
                pair[0]
            };
            let y = y.xor(t.hash_tweak(&self.cipher, j));
            values.push(y);
            j += 1;
        }
        self.state = OtReceiverState::Complete;
        Ok(values)
    }
}

} // verus!
