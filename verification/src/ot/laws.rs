//! Why the extension delivers what was chosen.

use crate::decode::xor_bytes;
use crate::ot::block::{tweak_hash, Block};
use crate::ot::extension::{columns_for, OtReceiverSetup, Receiver, Sender, NBASE};
use crate::ot::utils::{
    bit_at, bit_of, bit_or_clear, bytes_of, column, fold_bits, pack, rows_of,
};
use vstd::prelude::*;

verus! {

/// A bit of the exclusive or of two bytes is set exactly when the bits of
/// the two bytes differ.
pub proof fn lemma_bit_at_xor(x: u8, y: u8, k: int)
    requires
        0 <= k < 8,
    ensures
        bit_at(x ^ y, k) == (bit_at(x, k) != bit_at(y, k)),
{
    let s: u8 = (7 - k) as u8;
    assert((((x ^ y) >> s) & 1u8 == 1u8) == (((x >> s) & 1u8 == 1u8) != ((y >> s) & 1u8 == 1u8)))
        by (bit_vector)
        requires
            s < 8,
    ;
}

/// Bit `k` of a byte packed from eight bits is the `k`-th of them.
pub proof fn lemma_bit_at_fold(bits: Seq<bool>, start: int, k: int)
    requires
        0 <= k < 8,
    ensures
        bit_at(fold_bits(bits, start, 8), k) == bit_or_clear(bits, start + k),
{
    let b0: u8 = if bit_or_clear(bits, start) { 1 } else { 0 };
    let b1: u8 = if bit_or_clear(bits, start + 1) { 1 } else { 0 };
    let b2: u8 = if bit_or_clear(bits, start + 2) { 1 } else { 0 };
    let b3: u8 = if bit_or_clear(bits, start + 3) { 1 } else { 0 };
    let b4: u8 = if bit_or_clear(bits, start + 4) { 1 } else { 0 };
    let b5: u8 = if bit_or_clear(bits, start + 5) { 1 } else { 0 };
    let b6: u8 = if bit_or_clear(bits, start + 6) { 1 } else { 0 };
    let b7: u8 = if bit_or_clear(bits, start + 7) { 1 } else { 0 };
    let f0 = fold_bits(bits, start, 0);
    let f1 = fold_bits(bits, start, 1);
    let f2 = fold_bits(bits, start, 2);
    let f3 = fold_bits(bits, start, 3);
    let f4 = fold_bits(bits, start, 4);
    let f5 = fold_bits(bits, start, 5);
    let f6 = fold_bits(bits, start, 6);
    let f7 = fold_bits(bits, start, 7);
    let f8 = fold_bits(bits, start, 8);
    assert(f0 == 0);
    assert(f1 == (f0 << 1u8) | b0);
    assert(f2 == (f1 << 1u8) | b1);
    assert(f3 == (f2 << 1u8) | b2);
    assert(f4 == (f3 << 1u8) | b3);
    assert(f5 == (f4 << 1u8) | b4);
    assert(f6 == (f5 << 1u8) | b5);
    assert(f7 == (f6 << 1u8) | b6);
    assert(f8 == (f7 << 1u8) | b7);
    let s: u8 = (7 - k) as u8;
    let bk: u8 = if k == 0 { b0 } else if k == 1 { b1 } else if k == 2 { b2 } else if k == 3 {
        b3
    } else if k == 4 { b4 } else if k == 5 { b5 } else if k == 6 { b6 } else { b7 };
    assert(((f8 >> s) & 1u8 == 1u8) == (bk == 1u8)) by (bit_vector)
        requires
            b0 <= 1 && b1 <= 1 && b2 <= 1 && b3 <= 1 && b4 <= 1 && b5 <= 1 && b6 <= 1 && b7 <= 1,
            f1 == (0u8 << 1u8) | b0,
            f2 == (f1 << 1u8) | b1,
            f3 == (f2 << 1u8) | b2,
            f4 == (f3 << 1u8) | b3,
            f5 == (f4 << 1u8) | b4,
            f6 == (f5 << 1u8) | b5,
            f7 == (f6 << 1u8) | b6,
            f8 == (f7 << 1u8) | b7,
            s < 8,
            bk == if s == 7 { b0 } else if s == 6 { b1 } else if s == 5 { b2 } else if s == 4 {
                b3
            } else if s == 3 { b4 } else if s == 2 { b5 } else if s == 1 { b6 } else { b7 },
    ;
}

/// Bit `i` of the bytes packed from `bits` is the `i`-th of them, and clear
/// past their end.
pub proof fn lemma_bit_of_bytes(bits: Seq<bool>, i: int)
    requires
        0 <= i < 8 * ((bits.len() + 7) / 8),
    ensures
        bit_of(bytes_of(bits), i) == bit_or_clear(bits, i),
{
    lemma_bit_at_fold(bits, 8 * (i / 8), i % 8);
}

/// Bit `i` of the exclusive or of two byte strings is set exactly when the
/// bits of the two strings differ.
pub proof fn lemma_bit_of_xor(a: Seq<u8>, b: Seq<u8>, i: int)
    requires
        0 <= i < 8 * a.len(),
        a.len() <= b.len(),
    ensures
        bit_of(xor_bytes(a, b), i) == (bit_of(a, i) != bit_of(b, i)),
{
    lemma_bit_at_xor(a[i / 8], b[i / 8], i % 8);
}

/// Packing bits that differ from others exactly where a third row of bits is
/// set gives a number that differs from the others' by that row, packed.
pub proof fn lemma_pack_xor(
    mixed: spec_fn(int) -> bool,
    plain: spec_fn(int) -> bool,
    mask: spec_fn(int) -> bool,
    count: nat,
)
    requires
        count <= 128,
        forall|j: int| 0 <= j < count ==> #[trigger] mixed(j) == (plain(j) != mask(j)),
    ensures
        pack(mixed, count) == pack(plain, count) ^ pack(mask, count),
    decreases count,
{
    if count == 0 {
        assert(0u128 == 0u128 ^ 0u128) by (bit_vector);
    } else {
        lemma_pack_xor(mixed, plain, mask, (count - 1) as nat);
        let a = pack(mixed, (count - 1) as nat);
        let b = pack(plain, (count - 1) as nat);
        let d = pack(mask, (count - 1) as nat);
        let x: u128 = if mixed(count - 1) { 1 } else { 0 };
        let y: u128 = if plain(count - 1) { 1 } else { 0 };
        let z: u128 = if mask(count - 1) { 1 } else { 0 };
        assert(0u128 ^ 0u128 == 0u128 && 0u128 ^ 1u128 == 1u128 && 1u128 ^ 0u128 == 1u128 && 1u128
            ^ 1u128 == 0u128) by (bit_vector);
        assert(((a << 1u128) | x) == ((b << 1u128) | y) ^ ((d << 1u128) | z)) by (bit_vector)
            requires
                a == b ^ d,
                x == y ^ z,
                x <= 1 && y <= 1 && z <= 1,
        ;
    }
}

/// Packing bits that are those of others gives the same number.
pub proof fn lemma_pack_same(first: spec_fn(int) -> bool, second: spec_fn(int) -> bool, count: nat)
    requires
        forall|j: int| 0 <= j < count ==> #[trigger] first(j) == second(j),
    ensures
        pack(first, count) == pack(second, count),
    decreases count,
{
    if count > 0 {
        lemma_pack_same(first, second, (count - 1) as nat);
    }
}

/// The seeds of a sender and a receiver agree when each generator of the
/// sender is the one of the receiver's pair that the base choice names.
pub open spec fn seeds_agree(sender: Sender, receiver: Receiver) -> bool {
    forall|j: int|
        0 <= j < NBASE ==> #[trigger] sender.rngs->Some_0[j] == if sender.base_choice[j] {
            receiver.rngs->Some_0[j].1
        } else {
            receiver.rngs->Some_0[j].0
        }
}

/// The setup that a receiver sends for `choice`.
pub open spec fn setup_for(receiver: Receiver, choice: Seq<bool>, setup: OtReceiverSetup) -> bool {
    &&& setup.ncols == columns_for(choice.len())
    &&& setup.wf()
    &&& rows_of(setup.table@) == receiver.sent_rows(bytes_of(choice), (setup.ncols / 8) as usize)
}

/// Where the seeds agree, the rows the sender arrives at are the rows the
/// receiver keeps, each with the choices mixed in exactly where the base
/// choice is set; so row `i` of the sender's table differs from row `i` of
/// the receiver's by the base choices, packed, if choice `i` is set, and not
/// at all if it is clear.
pub proof fn lemma_tables(
    sender: Sender,
    receiver: Receiver,
    choice: Seq<bool>,
    setup: OtReceiverSetup,
    i: int,
)
    requires
        sender.wf(),
        receiver.wf(),
        sender.state.rank() >= 1,
        receiver.state.rank() >= 1,
        seeds_agree(sender, receiver),
        setup_for(receiver, choice, setup),
        0 <= i < choice.len(),
    ensures
        sender.extension_setup(setup).0.table->Some_0[i] == receiver.after_setup(
            choice,
        ).table->Some_0[i] ^ if choice[i] {
            sender.delta()
        } else {
            0u128
        },
{
    let ncols = setup.ncols;
    let n = (ncols / 8) as usize;
    let r = bytes_of(choice);
    let us = rows_of(setup.table@);
    let kept = receiver.kept_rows(n);
    let rows = sender.rows(us, n);
    assert(r.len() == n);
    let mixed = |j: int| bit_of(rows[j], i);
    let plain = |j: int| bit_of(kept[j], i);
    lemma_bit_of_bytes(choice, i);
    let set = |j: int| sender.base_choice[j] && choice[i];
    assert forall|j: int| 0 <= j < NBASE implies #[trigger] mixed(j) == (plain(j) != set(j)) by {
        let pair = receiver.rngs->Some_0[j];
        let a = pair.0.output(n);
        let b = pair.1.output(n);
        let own = sender.rngs->Some_0[j];
        assert(own == if sender.base_choice[j] {
            pair.1
        } else {
            pair.0
        });
        assert(us[j] == xor_bytes(xor_bytes(b, a), r));
        if sender.base_choice[j] {
            assert(rows[j] == xor_bytes(b, xor_bytes(xor_bytes(b, a), r)));
            lemma_bit_of_xor(b, xor_bytes(xor_bytes(b, a), r), i);
            lemma_bit_of_xor(xor_bytes(b, a), r, i);
            lemma_bit_of_xor(b, a, i);
        } else {
            assert(rows[j] == a);
        }
    }
    assert(column(rows, i) == pack(mixed, NBASE as nat));
    assert(column(kept, i) == pack(plain, NBASE as nat));
    if choice[i] {
        let mask = |j: int| sender.base_choice[j];
        lemma_pack_xor(mixed, plain, mask, NBASE as nat);
    } else {
        lemma_pack_same(mixed, plain, NBASE as nat);
        let t = pack(plain, NBASE as nat);
        assert(t == t ^ 0u128) by (bit_vector);
    }
}

/// A transfer delivers the input that was chosen and lifts no other mask:
/// where the two tables differ as they do after an honest setup, and both
/// parties hash under the same key, unmasking the pair the sender masked
/// gives the first input if the choice is clear and the second if it is set.
pub proof fn lemma_transfer(
    sender: Sender,
    receiver: Receiver,
    j: int,
    choice: bool,
    first: Block,
    second: Block,
    pair: [Block; 2],
)
    requires
        sender.key == receiver.key,
        sender.table->Some_0[j] == receiver.table->Some_0[j] ^ if choice {
            sender.delta()
        } else {
            0u128
        },
        pair[0] == sender.masked_first(j, first),
        pair[1] == sender.masked_second(j, second),
    ensures
        receiver.unmasked(j, choice, pair) == if choice {
            second
        } else {
            first
        },
{
    let t = receiver.table->Some_0[j];
    let q = sender.table->Some_0[j];
    let d = sender.delta();
    let h = tweak_hash(receiver.key, t, j as usize);
    if choice {
        assert((t ^ d) ^ d == t) by (bit_vector);
        let x = second.0;
        assert((h ^ x) ^ h == x) by (bit_vector);
    } else {
        assert(t ^ 0u128 == t) by (bit_vector);
        let x = first.0;
        assert((h ^ x) ^ h == x) by (bit_vector);
    }
}

/// The extension is correct: after an honest setup from seeds that agree,
/// every transfer delivers to the receiver the input it chose.
pub proof fn lemma_extension_delivers_choice(
    sender: Sender,
    receiver: Receiver,
    choice: Seq<bool>,
    setup: OtReceiverSetup,
    j: int,
    first: Block,
    second: Block,
    pair: [Block; 2],
)
    requires
        sender.wf(),
        receiver.wf(),
        sender.state.rank() >= 1,
        receiver.state.rank() >= 1,
        sender.key == receiver.key,
        seeds_agree(sender, receiver),
        setup_for(receiver, choice, setup),
        0 <= j < choice.len(),
        pair[0] == sender.extension_setup(setup).0.masked_first(j, first),
        pair[1] == sender.extension_setup(setup).0.masked_second(j, second),
    ensures
        receiver.after_setup(choice).unmasked(j, choice[j], pair) == if choice[j] {
            second
        } else {
            first
        },
{
    lemma_tables(sender, receiver, choice, setup, j);
    lemma_transfer(
        sender.extension_setup(setup).0,
        receiver.after_setup(choice),
        j,
        choice[j],
        first,
        second,
        pair,
    );
}

} // verus!
