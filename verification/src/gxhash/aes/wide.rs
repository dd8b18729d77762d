//! The unrolled loop in double-width registers.
//!
//! A wide register holds two ordinary registers side by side, and every wide
//! operation works on the two halves independently. The wide loop keeps both
//! accumulator lanes in one wide register and both running keys in another,
//! and reads two blocks at a time. It is proved to return what the narrow
//! loop returns.

use vstd::prelude::*;
use crate::gxhash::aes::round::{
    aes_encrypt,
    aes_encrypt_last,
    aes_round,
    aes_round_last,
    lemma_round_width,
};
use crate::gxhash::aes::{
    absorb_group,
    absorb_groups,
    block,
    compress_8_lanes,
    finalize,
    finalize_lanes,
    initial_lanes,
    key_lanes,
    length_lanes,
    salt_key,
    LaneState,
};
use crate::gxhash::common::{
    add_lanes,
    add_u8,
    load_u32,
    load_unaligned,
    new,
    xor,
    xor_lanes,
    zero_lanes,
    State,
};

verus! {

/// A 256-bit register: two 128-bit registers, `lo` first in memory.
#[derive(Clone, Copy, Debug, PartialEq, Eq)]
pub struct WideState {
    pub lo: State,
    pub hi: State,
}

impl View for WideState {
    type V = Seq<u8>;

    open spec fn view(&self) -> Seq<u8> {
        self.lo@ + self.hi@
    }
}

/// The first sixteen lanes of a wide register.
pub open spec fn low_half(w: Seq<u8>) -> Seq<u8> {
    w.subrange(0, 16)
}

/// The last sixteen lanes of a wide register.
pub open spec fn high_half(w: Seq<u8>) -> Seq<u8> {
    w.subrange(16, 32)
}

/// A full AES round on each half.
pub open spec fn wide_aes_round(data: Seq<u8>, key: Seq<u8>) -> Seq<u8> {
    aes_round(low_half(data), low_half(key)) + aes_round(high_half(data), high_half(key))
}

/// A last AES round on each half.
pub open spec fn wide_aes_round_last(data: Seq<u8>, key: Seq<u8>) -> Seq<u8> {
    aes_round_last(low_half(data), low_half(key)) + aes_round_last(high_half(data), high_half(key))
}

/// Lane-wise sum modulo 256 over all thirty-two lanes.
pub open spec fn wide_add_lanes(a: Seq<u8>, b: Seq<u8>) -> Seq<u8> {
    add_lanes(low_half(a), low_half(b)) + add_lanes(high_half(a), high_half(b))
}

/// What the wide loop carries from one group to the next: both running keys
/// in `t`, both accumulator lanes in `lane`.
pub struct WideLaneState {
    pub t: Seq<u8>,
    pub lane: Seq<u8>,
}

/// The wide loop's state before the first group.
pub open spec fn initial_wide_lanes(hash: Seq<u8>) -> WideLaneState {
    WideLaneState { t: zero_lanes() + zero_lanes(), lane: hash + hash }
}

/// One group of eight blocks absorbed, two blocks at a time.
pub open spec fn absorb_group_wide(acc: WideLaneState, group: Seq<u8>) -> WideLaneState {
    let tmp = wide_aes_round(
        wide_aes_round(
            wide_aes_round(group.subrange(0, 32), group.subrange(32, 64)),
            group.subrange(64, 96),
        ),
        group.subrange(96, 128),
    );
    let t = wide_add_lanes(acc.t, key_lanes(0) + key_lanes(1));
    WideLaneState { t, lane: wide_aes_round_last(wide_aes_round(tmp, t), acc.lane) }
}

/// The first `groups` groups of `data` absorbed in order.
pub open spec fn absorb_groups_wide(acc: WideLaneState, data: Seq<u8>, groups: nat) -> WideLaneState
    decreases groups,
{
    if groups == 0 {
        acc
    } else {
        absorb_group_wide(
            absorb_groups_wide(acc, data, (groups - 1) as nat),
            data.subrange(128 * (groups - 1), 128 * (groups as int)),
        )
    }
}

/// The wide loop over `data`, a whole number of groups: all groups absorbed,
/// the two lanes taken apart, the message length added to each, and the lanes
/// merged by one AES round.
pub open spec fn compress_8_hybrid_lanes(data: Seq<u8>, hash: Seq<u8>, len: usize) -> Seq<u8> {
    let end = absorb_groups_wide(initial_wide_lanes(hash), data, data.len() / 128);
    aes_round(
        add_lanes(low_half(end.lane), length_lanes(len)),
        add_lanes(high_half(end.lane), length_lanes(len)),
    )
}

/// The wide state holds exactly the narrow state's two keys and two lanes.
pub open spec fn pairs_up(wide: WideLaneState, narrow: LaneState) -> bool {
    &&& narrow.t1.len() == 16
    &&& narrow.t2.len() == 16
    &&& narrow.lane1.len() == 16
    &&& narrow.lane2.len() == 16
    &&& wide.t == narrow.t1 + narrow.t2
    &&& wide.lane == narrow.lane1 + narrow.lane2
}

proof fn lemma_halves(a: Seq<u8>, b: Seq<u8>)
    requires
        a.len() == 16,
        b.len() == 16,
    ensures
        low_half(a + b) == a,
        high_half(a + b) == b,
{
    assert(low_half(a + b) =~= a);
    assert(high_half(a + b) =~= b);
}

proof fn lemma_absorb_group_pairs_up(wide: WideLaneState, narrow: LaneState, group: Seq<u8>)
    requires
        pairs_up(wide, narrow),
        group.len() == 128,
    ensures
        pairs_up(absorb_group_wide(wide, group), absorb_group(narrow, group)),
{
    let b0 = block(group, 0);
    let b1 = block(group, 16);
    let b2 = block(group, 32);
    let b3 = block(group, 48);
    let b4 = block(group, 64);
    let b5 = block(group, 80);
    let b6 = block(group, 96);
    let b7 = block(group, 112);
    assert(group.subrange(0, 32) =~= b0 + b1);
    assert(group.subrange(32, 64) =~= b2 + b3);
    assert(group.subrange(64, 96) =~= b4 + b5);
    assert(group.subrange(96, 128) =~= b6 + b7);
    lemma_halves(b0, b1);
    lemma_halves(b2, b3);
    lemma_halves(b4, b5);
    lemma_halves(b6, b7);

    let x0 = aes_round(b0, b2);
    let x1 = aes_round(b1, b3);
    lemma_round_width(b0, b2);
    lemma_round_width(b1, b3);
    lemma_halves(x0, x1);
    let y0 = aes_round(x0, b4);
    let y1 = aes_round(x1, b5);
    lemma_round_width(x0, b4);
    lemma_round_width(x1, b5);
    lemma_halves(y0, y1);
    let v0 = aes_round(y0, b6);
    let v1 = aes_round(y1, b7);
    lemma_round_width(y0, b6);
    lemma_round_width(y1, b7);
    lemma_halves(v0, v1);

    lemma_halves(narrow.t1, narrow.t2);
    lemma_halves(key_lanes(0), key_lanes(1));
    let t1 = add_lanes(narrow.t1, key_lanes(0));
    let t2 = add_lanes(narrow.t2, key_lanes(1));
    lemma_halves(t1, t2);

    let z0 = aes_round(v0, t1);
    let z1 = aes_round(v1, t2);
    lemma_round_width(v0, t1);
    lemma_round_width(v1, t2);
    lemma_halves(z0, z1);
    lemma_halves(narrow.lane1, narrow.lane2);
    lemma_round_width(z0, narrow.lane1);
    lemma_round_width(z1, narrow.lane2);
}

proof fn lemma_absorb_groups_pair_up(hash: Seq<u8>, data: Seq<u8>, groups: nat)
    requires
        hash.len() == 16,
        128 * groups <= data.len(),
    ensures
        pairs_up(
            absorb_groups_wide(initial_wide_lanes(hash), data, groups),
            absorb_groups(initial_lanes(hash), data, groups),
        ),
    decreases groups,
{
    if groups > 0 {
        lemma_absorb_groups_pair_up(hash, data, (groups - 1) as nat);
        lemma_absorb_group_pairs_up(
            absorb_groups_wide(initial_wide_lanes(hash), data, (groups - 1) as nat),
            absorb_groups(initial_lanes(hash), data, (groups - 1) as nat),
            data.subrange(128 * (groups - 1), 128 * (groups as int)),
        );
    }
}

/// The wide loop and the narrow loop compute the same register from the same
/// blocks, running hash and message length.
pub proof fn lemma_hybrid_matches_narrow(data: Seq<u8>, hash: Seq<u8>, len: usize)
    requires
        hash.len() == 16,
        data.len() % 128 == 0,
    ensures
        compress_8_hybrid_lanes(data, hash, len) == compress_8_lanes(data, hash, len),
{
    let groups = data.len() / 128;
    lemma_absorb_groups_pair_up(hash, data, groups);
    let narrow = absorb_groups(initial_lanes(hash), data, groups);
    lemma_halves(narrow.lane1, narrow.lane2);
}

impl WideState {
    /// The all-zero wide register.
    pub fn zero() -> (wide: WideState)
        ensures
            wide@ == zero_lanes() + zero_lanes(),
    {
        WideState { lo: new(), hi: new() }
    }

    /// The wide register with `lo` in its first half and `hi` in its second.
    pub fn from_halves(lo: State, hi: State) -> (wide: WideState)
        ensures
            wide@ == lo@ + hi@,
    {
        WideState { lo, hi }
    }

    /// The first half.
    pub fn low(self) -> (state: State)
        ensures
            state@ == low_half(self@),
    {
        proof {
            lemma_halves(self.lo@, self.hi@);
        }
        self.lo
    }

    /// The second half.
    pub fn high(self) -> (state: State)
        ensures
            state@ == high_half(self@),
    {
        proof {
            lemma_halves(self.lo@, self.hi@);
        }
        self.hi
    }

    /// The two halves folded into one register by exclusive or.
    pub fn fold(self) -> (state: State)
        ensures
            state@ == xor_lanes(low_half(self@), high_half(self@)),
    {
        proof {
            lemma_halves(self.lo@, self.hi@);
        }
        xor(self.lo, self.hi)
    }
}

/// Reads two register widths from `data`, starting at `offset`.
pub fn load_unaligned_x2(data: &[u8], offset: usize) -> (wide: WideState)
    requires
        offset + 32 <= data.len(),
    ensures
        wide@ == data@.subrange(offset as int, offset + 32),
{
    let lo = load_unaligned(data, offset);
    let hi = load_unaligned(data, offset + 16);
    let wide = WideState { lo, hi };
    assert(wide@ =~= data@.subrange(offset as int, offset + 32));
    wide
}

/// One full AES round on each half of `data`, keyed by the matching half of
/// `keys`.
pub fn aes_encrypt_x2(data: WideState, keys: WideState) -> (out: WideState)
    ensures
        out@ == wide_aes_round(data@, keys@),
{
    proof {
        lemma_halves(data.lo@, data.hi@);
        lemma_halves(keys.lo@, keys.hi@);
    }
    WideState { lo: aes_encrypt(data.lo, keys.lo), hi: aes_encrypt(data.hi, keys.hi) }
}

/// One last AES round on each half of `data`, keyed by the matching half of
/// `keys`.
pub fn aes_encrypt_last_x2(data: WideState, keys: WideState) -> (out: WideState)
    ensures
        out@ == wide_aes_round_last(data@, keys@),
{
    proof {
        lemma_halves(data.lo@, data.hi@);
        lemma_halves(keys.lo@, keys.hi@);
    }
    WideState { lo: aes_encrypt_last(data.lo, keys.lo), hi: aes_encrypt_last(data.hi, keys.hi) }
}

/// Lane-wise sum of two wide registers, each lane modulo 256.
pub fn add_u8_x2(a: WideState, b: WideState) -> (sum: WideState)
    ensures
        sum@ == wide_add_lanes(a@, b@),
{
    proof {
        lemma_halves(a.lo@, a.hi@);
        lemma_halves(b.lo@, b.hi@);
    }
    WideState { lo: add_u8(a.lo, b.lo), hi: add_u8(a.hi, b.hi) }
}

/// Runs the unrolled loop over `input` from `ptr` to the end in wide
/// registers. It takes what `compress_8` takes and returns what `compress_8`
/// returns.
pub fn compress_8_hybrid(input: &[u8], ptr: usize, hash_vector: State, len: usize) -> (state:
    State)
    requires
        ptr <= input.len(),
        (input.len() - ptr) % 128 == 0,
    ensures
        state@ == compress_8_hybrid_lanes(input@.skip(ptr as int), hash_vector@, len),
        state@ == compress_8_lanes(input@.skip(ptr as int), hash_vector@, len),
{
    let ghost data = input@.skip(ptr as int);
    let ghost mut acc = initial_wide_lanes(hash_vector@);
    let ghost mut done: nat = 0;
    let end_address = input.len();
    let mut ptr = ptr;
    let mut t = WideState::zero();
    let mut lane = WideState::from_halves(hash_vector, hash_vector);
    while ptr < end_address
        invariant
            end_address == input.len(),
            ptr <= end_address,
            (end_address - ptr) % 128 == 0,
            data == input@.skip(end_address - data.len()),
            data.len() <= end_address,
            ptr == end_address - data.len() + 128 * done,
            acc == absorb_groups_wide(initial_wide_lanes(hash_vector@), data, done),
            t@ == acc.t,
            lane@ == acc.lane,
        decreases end_address - ptr,
    {
        let ghost group = data.subrange(128 * (done as int), 128 * (done as int + 1));
        let v0 = load_unaligned_x2(input, ptr);
        let v1 = load_unaligned_x2(input, ptr + 32);
        let v2 = load_unaligned_x2(input, ptr + 64);
        let v3 = load_unaligned_x2(input, ptr + 96);
        proof {
            assert(v0@ =~= group.subrange(0, 32));
            assert(v1@ =~= group.subrange(32, 64));
            assert(v2@ =~= group.subrange(64, 96));
            assert(v3@ =~= group.subrange(96, 128));
        }
        ptr += 128;

        let mut tmp = aes_encrypt_x2(v0, v1);
        tmp = aes_encrypt_x2(tmp, v2);
        tmp = aes_encrypt_x2(tmp, v3);

        t = add_u8_x2(t, WideState::from_halves(salt_key(0), salt_key(1)));

        lane = aes_encrypt_last_x2(aes_encrypt_x2(tmp, t), lane);
        proof {
            acc = absorb_group_wide(acc, group);
            done = done + 1;
        }
    }
    proof {
        assert(done == data.len() / 128);
        lemma_hybrid_matches_narrow(data, hash_vector@, len);
    }
    // Take the two lanes apart.
    let mut lane1 = lane.low();
    let mut lane2 = lane.high();
    let len_vec = load_u32(#[verifier::truncate] (len as u32));
    lane1 = add_u8(lane1, len_vec);
    lane2 = add_u8(lane2, len_vec);
    // Merge the lanes.
    aes_encrypt(lane1, lane2)
}

/// The finalizer for a wide state: the two halves are folded by exclusive or,
/// and the three closing AES rounds follow.
pub fn finalize_wide(hash: WideState) -> (out: State)
    ensures
        out@ == finalize_lanes(xor_lanes(low_half(hash@), high_half(hash@))),
{
    finalize(hash.fold())
}

} // verus!
