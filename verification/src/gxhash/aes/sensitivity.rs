//! How the compressed state reacts to a change of the message.
//!
//! Every AES round is one-to-one in its data and in its key, so a change that
//! reaches a single argument of a round always changes the round's result.
//! The lemmas here follow such a change through the compression schedule.

use vstd::prelude::*;
use crate::gxhash::aes::partial::{
    lemma_padding_does_not_collide,
    lemma_partial_lanes_injective,
    pad_lanes,
    partial_lanes,
};
use crate::gxhash::aes::round::{
    aes_round,
    lemma_aes_round_injective,
    lemma_aes_round_last_injective,
    lemma_round_width,
};
use crate::gxhash::aes::{
    absorb_blocks,
    absorb_group,
    absorb_groups,
    block,
    compress_8_lanes,
    compress_all_lanes,
    compress_many_lanes,
    finalize_lanes,
    initial_lanes,
    key_lanes,
    length_lanes,
    whiten,
    LaneState,
};
use crate::gxhash::common::{add_lanes, add_wrapping, zero_lanes};

verus! {

/// The finalizer maps distinct registers to distinct registers: whitening
/// alone never makes two compressed states collide.
pub proof fn lemma_finalize_injective(a: Seq<u8>, b: Seq<u8>)
    requires
        a.len() == 16,
        b.len() == 16,
        finalize_lanes(a) == finalize_lanes(b),
    ensures
        a == b,
{
    let a1 = aes_round(a, key_lanes(0));
    let b1 = aes_round(b, key_lanes(0));
    let a2 = aes_round(a1, key_lanes(1));
    let b2 = aes_round(b1, key_lanes(1));
    lemma_round_width(a, key_lanes(0));
    lemma_round_width(b, key_lanes(0));
    lemma_round_width(a1, key_lanes(1));
    lemma_round_width(b1, key_lanes(1));
    lemma_aes_round_last_injective(a2, b2, key_lanes(2));
    lemma_aes_round_injective(a1, b1, key_lanes(1));
    lemma_aes_round_injective(a, b, key_lanes(0));
}

/// The closing mix is one-to-one in the running hash and in the chained
/// blocks.
pub proof fn lemma_whiten_injective(a: Seq<u8>, b: Seq<u8>, c: Seq<u8>)
    requires
        a.len() == 16,
        b.len() == 16,
    ensures
        whiten(a, c) == whiten(b, c) ==> a == b,
        whiten(c, a) == whiten(c, b) ==> a == b,
{
    let ka = aes_round(aes_round(a, key_lanes(0)), key_lanes(1));
    let kb = aes_round(aes_round(b, key_lanes(0)), key_lanes(1));
    let kc = aes_round(aes_round(c, key_lanes(0)), key_lanes(1));
    lemma_aes_round_last_injective(a, b, kc);
    lemma_round_width(a, key_lanes(0));
    lemma_round_width(b, key_lanes(0));
    lemma_round_width(aes_round(a, key_lanes(0)), key_lanes(1));
    lemma_round_width(aes_round(b, key_lanes(0)), key_lanes(1));
    lemma_aes_round_last_injective(ka, kb, c);
    lemma_aes_round_injective(aes_round(a, key_lanes(0)), aes_round(b, key_lanes(0)), key_lanes(1));
    lemma_aes_round_injective(a, b, key_lanes(0));
}

/// In a message of at most three register widths every byte counts:
/// replacing any one byte by another value changes the compressed state.
pub proof fn lemma_short_message_byte_counts(a: Seq<u8>, i: int, x: u8)
    requires
        0 <= i < a.len() <= 48,
        x != a[i],
    ensures
        compress_all_lanes(a.update(i, x)) != compress_all_lanes(a),
{
    let b = a.update(i, x);
    let len = a.len();
    if len <= 16 {
        if partial_lanes(a) == partial_lanes(b) {
            lemma_partial_lanes_injective(a, b);
            assert(a[i] == b[i]);
        }
    } else {
        let extra = len % 16;
        let head = if extra == 0 { 16 } else { extra as int };
        let first_a = if extra == 0 { block(a, 0) } else { partial_lanes(a.take(head)) };
        let first_b = if extra == 0 { block(b, 0) } else { partial_lanes(b.take(head)) };
        let v0_a = block(a, head);
        let v0_b = block(b, head);
        if i < head {
            assert(v0_a =~= v0_b);
            if len > 32 {
                assert(block(a, head + 16) =~= block(b, head + 16));
            }
            if first_a == first_b {
                if extra == 0 {
                    assert(block(a, 0)[i] == a[i]);
                    assert(block(b, 0)[i] == b[i]);
                } else {
                    lemma_partial_lanes_injective(a.take(head), b.take(head));
                    assert(a.take(head)[i] == a[i]);
                    assert(b.take(head)[i] == b[i]);
                }
            }
            let v = if len <= 32 { v0_a } else { aes_round(v0_a, block(a, head + 16)) };
            lemma_whiten_injective(first_a, first_b, v);
        } else {
            assert(first_a == first_b) by {
                if extra == 0 {
                    assert(block(a, 0) =~= block(b, 0));
                } else {
                    assert(a.take(head) =~= b.take(head));
                }
            }
            if len <= 32 {
                assert(v0_a[i - head] == a[i]);
                assert(v0_b[i - head] == b[i]);
                lemma_whiten_injective(v0_a, v0_b, first_a);
            } else {
                let w_a = block(a, head + 16);
                let w_b = block(b, head + 16);
                let v1_a = aes_round(v0_a, w_a);
                let v1_b = aes_round(v0_b, w_b);
                if i < head + 16 {
                    assert(v0_a[i - head] == a[i]);
                    assert(v0_b[i - head] == b[i]);
                    assert(w_a =~= w_b);
                    lemma_aes_round_injective(v0_a, v0_b, w_a);
                } else {
                    assert(w_a[i - head - 16] == a[i]);
                    assert(w_b[i - head - 16] == b[i]);
                    assert(v0_a =~= v0_b);
                    lemma_aes_round_injective(w_a, w_b, v0_a);
                }
                lemma_round_width(v0_a, w_a);
                lemma_round_width(v0_b, w_b);
                lemma_whiten_injective(v1_a, v1_b, first_a);
            }
        }
    }
}

/// Adding a fixed register lane by lane is one-to-one.
pub proof fn lemma_add_lanes_injective(a: Seq<u8>, b: Seq<u8>, c: Seq<u8>)
    requires
        a.len() == 16,
        b.len() == 16,
        add_lanes(a, c) == add_lanes(b, c),
    ensures
        a == b,
{
    assert forall|i: int| 0 <= i < 16 implies a[i] == b[i] by {
        assert(add_lanes(a, c)[i] == add_wrapping(a[i], c[i]));
        assert(add_lanes(b, c)[i] == add_wrapping(b[i], c[i]));
    }
    assert(a =~= b);
}

/// All four registers of the loop's state have full width.
pub open spec fn full_width(s: LaneState) -> bool {
    &&& s.t1.len() == 16
    &&& s.t2.len() == 16
    &&& s.lane1.len() == 16
    &&& s.lane2.len() == 16
}

/// Two states of the loop with the same running keys that differ in exactly
/// one of their two lanes.
pub open spec fn one_lane_differs(s: LaneState, t: LaneState) -> bool {
    &&& s.t1 == t.t1
    &&& s.t2 == t.t2
    &&& (s.lane1 == t.lane1) != (s.lane2 == t.lane2)
}

proof fn lemma_absorb_group_full_width(s: LaneState, group: Seq<u8>)
    ensures
        full_width(absorb_group(s, group)),
{
    let v0 = aes_round(
        aes_round(aes_round(block(group, 0), block(group, 32)), block(group, 64)),
        block(group, 96),
    );
    let v1 = aes_round(
        aes_round(aes_round(block(group, 16), block(group, 48)), block(group, 80)),
        block(group, 112),
    );
    let t1 = add_lanes(s.t1, key_lanes(0));
    let t2 = add_lanes(s.t2, key_lanes(1));
    lemma_round_width(aes_round(v0, t1), s.lane1);
    lemma_round_width(aes_round(v1, t2), s.lane2);
}

proof fn lemma_absorb_groups_full_width(hash: Seq<u8>, data: Seq<u8>, groups: nat)
    requires
        hash.len() == 16,
    ensures
        full_width(absorb_groups(initial_lanes(hash), data, groups)),
    decreases groups,
{
    if groups > 0 {
        lemma_absorb_group_full_width(
            absorb_groups(initial_lanes(hash), data, (groups - 1) as nat),
            data.subrange(128 * (groups - 1), 128 * (groups as int)),
        );
    }
}

/// Absorbing the same group into two states that differ in one lane leaves
/// them differing in that lane.
proof fn lemma_same_group_keeps_difference(s: LaneState, t: LaneState, group: Seq<u8>)
    requires
        full_width(s),
        full_width(t),
        one_lane_differs(s, t),
    ensures
        one_lane_differs(absorb_group(s, group), absorb_group(t, group)),
{
    let v0 = aes_round(
        aes_round(aes_round(block(group, 0), block(group, 32)), block(group, 64)),
        block(group, 96),
    );
    let v1 = aes_round(
        aes_round(aes_round(block(group, 16), block(group, 48)), block(group, 80)),
        block(group, 112),
    );
    let t1 = add_lanes(s.t1, key_lanes(0));
    let t2 = add_lanes(s.t2, key_lanes(1));
    lemma_aes_round_last_injective(s.lane1, t.lane1, aes_round(v0, t1));
    lemma_aes_round_last_injective(s.lane2, t.lane2, aes_round(v1, t2));
}

/// The chain of three rounds that folds four blocks into one register is
/// one-to-one in each block.
proof fn lemma_chain_injective(
    a0: Seq<u8>,
    a1: Seq<u8>,
    a2: Seq<u8>,
    a3: Seq<u8>,
    b0: Seq<u8>,
    b1: Seq<u8>,
    b2: Seq<u8>,
    b3: Seq<u8>,
)
    requires
        a0.len() == 16,
        a1.len() == 16,
        a2.len() == 16,
        a3.len() == 16,
        b0.len() == 16,
        b1.len() == 16,
        b2.len() == 16,
        b3.len() == 16,
        (if a0 == b0 { 0int } else { 1 }) + (if a1 == b1 { 0int } else { 1 }) + (if a2 == b2 {
            0int
        } else {
            1
        }) + (if a3 == b3 { 0int } else { 1 }) == 1,
    ensures
        aes_round(aes_round(aes_round(a0, a1), a2), a3) != aes_round(
            aes_round(aes_round(b0, b1), b2),
            b3,
        ),
{
    let x_a = aes_round(a0, a1);
    let x_b = aes_round(b0, b1);
    let y_a = aes_round(x_a, a2);
    let y_b = aes_round(x_b, b2);
    lemma_round_width(a0, a1);
    lemma_round_width(b0, b1);
    lemma_round_width(x_a, a2);
    lemma_round_width(x_b, b2);
    lemma_aes_round_injective(a0, b0, a1);
    lemma_aes_round_injective(a1, b1, a0);
    lemma_aes_round_injective(x_a, x_b, a2);
    lemma_aes_round_injective(a2, b2, x_a);
    lemma_aes_round_injective(y_a, y_b, a3);
    lemma_aes_round_injective(a3, b3, y_a);
}

/// Absorbing two groups that differ in one byte into the same state gives
/// states that differ in exactly one lane.
proof fn lemma_changed_group_splits_lanes(s: LaneState, group: Seq<u8>, q: int, x: u8)
    requires
        full_width(s),
        group.len() == 128,
        0 <= q < 128,
        x != group[q],
    ensures
        one_lane_differs(absorb_group(s, group), absorb_group(s, group.update(q, x))),
{
    let other = group.update(q, x);
    let j = q / 16;
    assert(block(group, 16 * j) != block(other, 16 * j)) by {
        assert(block(group, 16 * j)[q - 16 * j] == group[q]);
        assert(block(other, 16 * j)[q - 16 * j] == x);
    }
    assert(j == 0 || block(group, 0) =~= block(other, 0));
    assert(j == 1 || block(group, 16) =~= block(other, 16));
    assert(j == 2 || block(group, 32) =~= block(other, 32));
    assert(j == 3 || block(group, 48) =~= block(other, 48));
    assert(j == 4 || block(group, 64) =~= block(other, 64));
    assert(j == 5 || block(group, 80) =~= block(other, 80));
    assert(j == 6 || block(group, 96) =~= block(other, 96));
    assert(j == 7 || block(group, 112) =~= block(other, 112));
    let v0 = aes_round(
        aes_round(aes_round(block(group, 0), block(group, 32)), block(group, 64)),
        block(group, 96),
    );
    let v1 = aes_round(
        aes_round(aes_round(block(group, 16), block(group, 48)), block(group, 80)),
        block(group, 112),
    );
    let w0 = aes_round(
        aes_round(aes_round(block(other, 0), block(other, 32)), block(other, 64)),
        block(other, 96),
    );
    let w1 = aes_round(
        aes_round(aes_round(block(other, 16), block(other, 48)), block(other, 80)),
        block(other, 112),
    );
    let t1 = add_lanes(s.t1, key_lanes(0));
    let t2 = add_lanes(s.t2, key_lanes(1));
    if j % 2 == 0 {
        lemma_chain_injective(
            block(group, 0),
            block(group, 32),
            block(group, 64),
            block(group, 96),
            block(other, 0),
            block(other, 32),
            block(other, 64),
            block(other, 96),
        );
        assert(v1 == w1);
        lemma_round_width(aes_round(aes_round(block(group, 0), block(group, 32)), block(group, 64)), block(group, 96));
        lemma_round_width(aes_round(aes_round(block(other, 0), block(other, 32)), block(other, 64)), block(other, 96));
        lemma_aes_round_injective(v0, w0, t1);
        lemma_round_width(v0, t1);
        lemma_round_width(w0, t1);
        lemma_aes_round_last_injective(aes_round(v0, t1), aes_round(w0, t1), s.lane1);
    } else {
        lemma_chain_injective(
            block(group, 16),
            block(group, 48),
            block(group, 80),
            block(group, 112),
            block(other, 16),
            block(other, 48),
            block(other, 80),
            block(other, 112),
        );
        assert(v0 == w0);
        lemma_round_width(aes_round(aes_round(block(group, 16), block(group, 48)), block(group, 80)), block(group, 112));
        lemma_round_width(aes_round(aes_round(block(other, 16), block(other, 48)), block(other, 80)), block(other, 112));
        lemma_aes_round_injective(v1, w1, t2);
        lemma_round_width(v1, t2);
        lemma_round_width(w1, t2);
        lemma_aes_round_last_injective(aes_round(v1, t2), aes_round(w1, t2), s.lane2);
    }
}

/// The groups before a changed byte are absorbed as before.
proof fn lemma_groups_before_change(hash: Seq<u8>, data: Seq<u8>, q: int, x: u8, groups: nat)
    requires
        0 <= q < data.len(),
        128 * groups <= q,
    ensures
        absorb_groups(initial_lanes(hash), data.update(q, x), groups) == absorb_groups(
            initial_lanes(hash),
            data,
            groups,
        ),
    decreases groups,
{
    if groups > 0 {
        lemma_groups_before_change(hash, data, q, x, (groups - 1) as nat);
        assert(data.update(q, x).subrange(128 * (groups - 1), 128 * (groups as int))
            =~= data.subrange(128 * (groups - 1), 128 * (groups as int)));
    }
}

/// From the group that holds a changed byte onwards, the two runs of the loop
/// differ in exactly one lane.
proof fn lemma_groups_after_change(hash: Seq<u8>, data: Seq<u8>, q: int, x: u8, groups: nat)
    requires
        hash.len() == 16,
        0 <= q < data.len(),
        x != data[q],
        q < 128 * groups <= data.len(),
    ensures
        one_lane_differs(
            absorb_groups(initial_lanes(hash), data, groups),
            absorb_groups(initial_lanes(hash), data.update(q, x), groups),
        ),
    decreases groups,
{
    let other = data.update(q, x);
    let before = (groups - 1) as nat;
    let group = data.subrange(128 * (before as int), 128 * (groups as int));
    let s = absorb_groups(initial_lanes(hash), data, before);
    let t = absorb_groups(initial_lanes(hash), other, before);
    lemma_absorb_groups_full_width(hash, data, before);
    lemma_absorb_groups_full_width(hash, other, before);
    if 128 * before <= q {
        lemma_groups_before_change(hash, data, q, x, before);
        assert(other.subrange(128 * (before as int), 128 * (groups as int)) =~= group.update(
            q - 128 * before,
            x,
        ));
        lemma_changed_group_splits_lanes(s, group, q - 128 * before, x);
    } else {
        lemma_groups_after_change(hash, data, q, x, before);
        assert(other.subrange(128 * (before as int), 128 * (groups as int)) =~= group);
        lemma_same_group_keeps_difference(s, t, group);
    }
}

/// In the unrolled loop every byte counts: replacing any one byte of its
/// input changes its result.
pub proof fn lemma_group_byte_counts(data: Seq<u8>, q: int, x: u8, hash: Seq<u8>, len: usize)
    requires
        hash.len() == 16,
        data.len() % 128 == 0,
        0 <= q < data.len(),
        x != data[q],
    ensures
        compress_8_lanes(data.update(q, x), hash, len) != compress_8_lanes(data, hash, len),
{
    let groups = data.len() / 128;
    let other = data.update(q, x);
    lemma_groups_after_change(hash, data, q, x, groups);
    lemma_absorb_groups_full_width(hash, data, groups);
    lemma_absorb_groups_full_width(hash, other, groups);
    let s = absorb_groups(initial_lanes(hash), data, groups);
    let t = absorb_groups(initial_lanes(hash), other, groups);
    let a1 = add_lanes(s.lane1, length_lanes(len));
    let a2 = add_lanes(s.lane2, length_lanes(len));
    let b1 = add_lanes(t.lane1, length_lanes(len));
    let b2 = add_lanes(t.lane2, length_lanes(len));
    if a1 == b1 {
        lemma_add_lanes_injective(s.lane1, t.lane1, length_lanes(len));
    }
    if a2 == b2 {
        lemma_add_lanes_injective(s.lane2, t.lane2, length_lanes(len));
    }
    lemma_aes_round_injective(a1, b1, a2);
    lemma_aes_round_injective(a2, b2, a1);
}

proof fn lemma_absorb_blocks_width(hash: Seq<u8>, data: Seq<u8>, blocks: nat)
    requires
        hash.len() == 16,
    ensures
        absorb_blocks(hash, data, blocks).len() == 16,
    decreases blocks,
{
    if blocks > 0 {
        lemma_round_width(
            absorb_blocks(hash, data, (blocks - 1) as nat),
            block(data, 16 * (blocks - 1)),
        );
    }
}

/// The single blocks before a changed byte are chained in as before.
proof fn lemma_blocks_before_change(hash: Seq<u8>, data: Seq<u8>, q: int, x: u8, blocks: nat)
    requires
        0 <= q < data.len(),
        16 * blocks <= q,
    ensures
        absorb_blocks(hash, data.update(q, x), blocks) == absorb_blocks(hash, data, blocks),
    decreases blocks,
{
    if blocks > 0 {
        lemma_blocks_before_change(hash, data, q, x, (blocks - 1) as nat);
        assert(block(data.update(q, x), 16 * (blocks - 1)) =~= block(data, 16 * (blocks - 1)));
    }
}

/// In a long tail every byte past the single blocks counts: replacing one
/// changes the tail's compressed state.
pub proof fn lemma_tail_byte_counts(data: Seq<u8>, q: int, x: u8, hash: Seq<u8>, len: usize)
    requires
        hash.len() == 16,
        data.len() % 16 == 0,
        16 * ((data.len() / 16) % 8) <= q < data.len(),
        x != data[q],
    ensures
        compress_many_lanes(data.update(q, x), hash, len) != compress_many_lanes(data, hash, len),
{
    let other = data.update(q, x);
    let singles = (data.len() / 16) % 8;
    let blocks = data.len() / 16;
    lemma_blocks_before_change(hash, data, q, x, singles);
    lemma_absorb_blocks_width(hash, data, singles);
    assert(other.skip(16 * (singles as int)) =~= data.skip(16 * (singles as int)).update(
        q - 16 * singles,
        x,
    ));
    assert((data.len() - 16 * singles) % 128 == 0) by {
        assert(data.len() == 16 * blocks);
        assert(blocks - singles == 8 * (blocks / 8));
    }
    lemma_group_byte_counts(
        data.skip(16 * (singles as int)),
        q - 16 * singles,
        x,
        absorb_blocks(hash, data, singles),
        len,
    );
}

/// How many bytes the first chunk of a message longer than a register holds:
/// the bytes that exceed a whole number of blocks, or a full block where
/// there are none.
pub open spec fn head_len(len: nat) -> int {
    if len % 16 == 0 {
        16
    } else {
        (len % 16) as int
    }
}

/// How many blocks of a message longer than three registers are chained in
/// singly before the unrolled loop starts.
pub open spec fn single_blocks(len: nat) -> int {
    ((len - head_len(len) - 32) / 16) % 8
}

/// Byte `i` of a message of `len` bytes reaches the compressed state through
/// one argument of one AES round only. That holds of every byte of a message
/// of at most three register widths. In a longer message it holds of the two
/// blocks after the first chunk and of the blocks that the unrolled loop
/// reads; the first chunk and the single blocks feed both lanes of the loop.
pub open spec fn counts_alone(len: nat, i: int) -> bool {
    ||| len <= 48
    ||| head_len(len) <= i < head_len(len) + 32
    ||| head_len(len) + 32 + 16 * single_blocks(len) <= i
}

/// Every compressed state is a full register.
pub proof fn lemma_compress_all_width(input: Seq<u8>)
    ensures
        compress_all_lanes(input).len() == 16,
{
    let len = input.len();
    if len > 16 {
        let extra = len % 16;
        let head = if extra == 0 { 16 } else { extra as int };
        let first = if extra == 0 { block(input, 0) } else { partial_lanes(input.take(head)) };
        let v0 = block(input, head);
        let v1 = aes_round(v0, block(input, head + 16));
        let hash = compress_many_lanes(input.skip(head + 32), first, len as usize);
        lemma_round_width(first, aes_round(aes_round(v0, key_lanes(0)), key_lanes(1)));
        lemma_round_width(first, aes_round(aes_round(v1, key_lanes(0)), key_lanes(1)));
        lemma_round_width(hash, aes_round(aes_round(v1, key_lanes(0)), key_lanes(1)));
    }
}

/// Replacing one byte of a message by another value changes the compressed
/// state, and with it the whitened register, for every byte that reaches the
/// state through one argument of one round.
pub proof fn lemma_byte_counts(a: Seq<u8>, i: int, x: u8)
    requires
        0 <= i < a.len(),
        x != a[i],
        counts_alone(a.len(), i),
    ensures
        compress_all_lanes(a.update(i, x)) != compress_all_lanes(a),
        finalize_lanes(compress_all_lanes(a.update(i, x))) != finalize_lanes(compress_all_lanes(a)),
{
    let b = a.update(i, x);
    let len = a.len();
    if len <= 48 {
        lemma_short_message_byte_counts(a, i, x);
    } else {
        let head = head_len(len);
        let first_a = if len % 16 == 0 { block(a, 0) } else { partial_lanes(a.take(head)) };
        let first_b = if len % 16 == 0 { block(b, 0) } else { partial_lanes(b.take(head)) };
        let v0_a = block(a, head);
        let v0_b = block(b, head);
        let w_a = block(a, head + 16);
        let w_b = block(b, head + 16);
        let v1_a = aes_round(v0_a, w_a);
        let v1_b = aes_round(v0_b, w_b);
        let tail_a = a.skip(head + 32);
        let tail_b = b.skip(head + 32);
        let hash_a = compress_many_lanes(tail_a, first_a, len as usize);
        let hash_b = compress_many_lanes(tail_b, first_b, len as usize);
        assert(first_a == first_b) by {
            if len % 16 == 0 {
                assert(block(a, 0) =~= block(b, 0));
            } else {
                assert(a.take(head) =~= b.take(head));
            }
        }
        lemma_round_width(v0_a, w_a);
        lemma_round_width(v0_b, w_b);
        if i < head + 32 {
            assert(tail_a =~= tail_b);
            if i < head + 16 {
                assert(v0_a[i - head] == a[i]);
                assert(v0_b[i - head] == b[i]);
                assert(w_a =~= w_b);
                lemma_aes_round_injective(v0_a, v0_b, w_a);
            } else {
                assert(w_a[i - head - 16] == a[i]);
                assert(w_b[i - head - 16] == b[i]);
                assert(v0_a =~= v0_b);
                lemma_aes_round_injective(w_a, w_b, v0_a);
            }
            lemma_whiten_injective(v1_a, v1_b, hash_a);
        } else {
            assert(v0_a =~= v0_b);
            assert(w_a =~= w_b);
            assert(tail_b =~= tail_a.update(i - head - 32, x));
            assert(tail_a.len() == len - head - 32);
            lemma_tail_byte_counts(tail_a, i - head - 32, x, first_a, len as usize);
            lemma_compress_many_width(tail_a, first_a, len as usize);
            lemma_compress_many_width(tail_b, first_a, len as usize);
            lemma_whiten_injective(hash_a, hash_b, v1_a);
        }
    }
    lemma_compress_all_width(a);
    lemma_compress_all_width(b);
    if finalize_lanes(compress_all_lanes(b)) == finalize_lanes(compress_all_lanes(a)) {
        lemma_finalize_injective(compress_all_lanes(b), compress_all_lanes(a));
    }
}

proof fn lemma_compress_many_width(data: Seq<u8>, hash: Seq<u8>, len: usize)
    ensures
        compress_many_lanes(data, hash, len).len() == 16,
{
    let singles = (data.len() / 16) % 8;
    let tail = data.skip(16 * (singles as int));
    let end = absorb_groups(
        initial_lanes(absorb_blocks(hash, data, singles)),
        tail,
        tail.len() / 128,
    );
    lemma_round_width(
        add_lanes(end.lane1, length_lanes(len)),
        add_lanes(end.lane2, length_lanes(len)),
    );
}

/// Messages of at most one register width that differ only in how many zero
/// bytes end them have different compressed states, and different whitened
/// registers: the length keeps them apart.
pub proof fn lemma_trailing_zeros_count(a: Seq<u8>, b: Seq<u8>)
    requires
        a.len() <= 16,
        b.len() <= 16,
        a.len() != b.len(),
        pad_lanes(a) == pad_lanes(b),
    ensures
        compress_all_lanes(a) != compress_all_lanes(b),
        finalize_lanes(compress_all_lanes(a)) != finalize_lanes(compress_all_lanes(b)),
{
    lemma_padding_does_not_collide(a, b);
    assert(compress_all_lanes(a) == partial_lanes(a)) by {
        if a.len() == 0 {
            assert(partial_lanes(a) =~= zero_lanes());
        }
    }
    assert(compress_all_lanes(b) == partial_lanes(b)) by {
        if b.len() == 0 {
            assert(partial_lanes(b) =~= zero_lanes());
        }
    }
    if finalize_lanes(compress_all_lanes(a)) == finalize_lanes(compress_all_lanes(b)) {
        lemma_finalize_injective(compress_all_lanes(a), compress_all_lanes(b));
    }
}

} // verus!
