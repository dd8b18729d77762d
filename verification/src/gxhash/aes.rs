//! The compression engine: the whole message folded into one register, with a
//! mixing schedule chosen by the message's length, and the finalizer that
//! whitens the register into the digest.

pub mod empty;
pub mod partial;
pub mod round;
pub mod sbox;
pub mod sensitivity;
pub mod wide;

pub use self::partial::{
    check_same_page,
    get_partial,
    get_partial_safe,
    get_partial_unsafe,
    AESHasherState,
};
pub use self::round::{aes_encrypt, aes_encrypt_last};
pub use self::wide::compress_8_hybrid;

use vstd::prelude::*;
use self::partial::partial_lanes;
use self::round::{aes_round, aes_round_last};
use crate::gxhash::common::{
    add_lanes,
    add_u8,
    ld,
    le_bytes_u32,
    load_u32,
    load_unaligned,
    new,
    repeat_lanes,
    words_lanes,
    zero_lanes,
    State,
};

verus! {

/// The salt: twelve fixed 32-bit words, read four at a time as round keys.
pub const KEYS: [u32; 12] = [
    0xF2784542,
    0xB09D3E21,
    0x89C222E5,
    0xFC3BC28E,
    0x03FCE279,
    0xCB6B2E9B,
    0xB361DC58,
    0x39132BD9,
    0xD0012E32,
    0x689D2B7D,
    0x5544B1B7,
    0xC78B122B,
];

/// The `k`-th round key: words `4k` to `4k + 3` of the salt.
pub open spec fn key_lanes(k: int) -> Seq<u8> {
    words_lanes(KEYS@.subrange(4 * k, 4 * k + 4))
}

/// The sixteen bytes of `data` that start at `at`.
pub open spec fn block(data: Seq<u8>, at: int) -> Seq<u8> {
    data.subrange(at, at + 16)
}

/// The message length as it is mixed into the lanes: its low 32 bits, four
/// times over.
pub open spec fn length_lanes(len: usize) -> Seq<u8> {
    repeat_lanes(le_bytes_u32(len as u32))
}

/// What the unrolled loop carries from one group of eight blocks to the next:
/// two running keys and two accumulator lanes.
pub struct LaneState {
    pub t1: Seq<u8>,
    pub t2: Seq<u8>,
    pub lane1: Seq<u8>,
    pub lane2: Seq<u8>,
}

/// The loop's state before the first group: zero keys, and the running hash
/// in both lanes.
pub open spec fn initial_lanes(hash: Seq<u8>) -> LaneState {
    LaneState { t1: zero_lanes(), t2: zero_lanes(), lane1: hash, lane2: hash }
}

/// One group of eight blocks absorbed. The even blocks are chained into the
/// first lane and the odd blocks into the second, each through AES rounds;
/// each running key grows by one salt key and is folded in before the lane is
/// updated.
pub open spec fn absorb_group(acc: LaneState, group: Seq<u8>) -> LaneState {
    let v0 = aes_round(
        aes_round(aes_round(block(group, 0), block(group, 32)), block(group, 64)),
        block(group, 96),
    );
    let v1 = aes_round(
        aes_round(aes_round(block(group, 16), block(group, 48)), block(group, 80)),
        block(group, 112),
    );
    let t1 = add_lanes(acc.t1, key_lanes(0));
    let t2 = add_lanes(acc.t2, key_lanes(1));
    LaneState {
        t1,
        t2,
        lane1: aes_round_last(aes_round(v0, t1), acc.lane1),
        lane2: aes_round_last(aes_round(v1, t2), acc.lane2),
    }
}

/// The first `groups` groups of `data` absorbed in order.
pub open spec fn absorb_groups(acc: LaneState, data: Seq<u8>, groups: nat) -> LaneState
    decreases groups,
{
    if groups == 0 {
        acc
    } else {
        absorb_group(
            absorb_groups(acc, data, (groups - 1) as nat),
            data.subrange(128 * (groups - 1), 128 * (groups as int)),
        )
    }
}

/// The unrolled loop over `data`, a whole number of groups: all groups
/// absorbed, the message length added to both lanes, and the lanes merged by
/// one AES round.
pub open spec fn compress_8_lanes(data: Seq<u8>, hash: Seq<u8>, len: usize) -> Seq<u8> {
    let end = absorb_groups(initial_lanes(hash), data, data.len() / 128);
    aes_round(add_lanes(end.lane1, length_lanes(len)), add_lanes(end.lane2, length_lanes(len)))
}

/// The first `blocks` blocks of `data` chained into `hash`, one AES round
/// each.
pub open spec fn absorb_blocks(hash: Seq<u8>, data: Seq<u8>, blocks: nat) -> Seq<u8>
    decreases blocks,
{
    if blocks == 0 {
        hash
    } else {
        aes_round(absorb_blocks(hash, data, (blocks - 1) as nat), block(data, 16 * (blocks - 1)))
    }
}

/// Compression of a long tail `data`, a whole number of blocks: the blocks
/// that do not fill a group of eight are chained in singly, then the groups go
/// through the unrolled loop.
pub open spec fn compress_many_lanes(data: Seq<u8>, hash: Seq<u8>, len: usize) -> Seq<u8> {
    let singles = (data.len() / 16) % 8;
    compress_8_lanes(data.skip(16 * (singles as int)), absorb_blocks(hash, data, singles), len)
}

/// The closing mix of every message longer than a register: the chained
/// blocks `v` pass two rounds under salt keys and become the key of a last
/// round on `hash`.
pub open spec fn whiten(hash: Seq<u8>, v: Seq<u8>) -> Seq<u8> {
    aes_round_last(hash, aes_round(aes_round(v, key_lanes(0)), key_lanes(1)))
}

/// The compressed state of a message.
///
/// - The empty message gives the zero register.
/// - A message of at most one register width is a single partial load.
/// - A longer message starts with the bytes that exceed a whole number of
///   blocks, as a partial load, or with a full block where there are none.
///   Up to two register widths one further block follows; up to three, a
///   second one is chained to it; beyond that the rest goes through
///   `compress_many_lanes`.
pub open spec fn compress_all_lanes(input: Seq<u8>) -> Seq<u8> {
    let len = input.len();
    if len == 0 {
        zero_lanes()
    } else if len <= 16 {
        partial_lanes(input)
    } else {
        let extra = len % 16;
        let head = if extra == 0 { 16 } else { extra as int };
        let first = if extra == 0 { block(input, 0) } else { partial_lanes(input.take(head)) };
        let v0 = block(input, head);
        if len <= 32 {
            whiten(first, v0)
        } else {
            let v1 = aes_round(v0, block(input, head + 16));
            if len <= 48 {
                whiten(first, v1)
            } else {
                whiten(compress_many_lanes(input.skip(head + 32), first, len as usize), v1)
            }
        }
    }
}

/// The finalizer: two full AES rounds and one last round, under the three
/// salt keys.
pub open spec fn finalize_lanes(hash: Seq<u8>) -> Seq<u8> {
    aes_round_last(aes_round(aes_round(hash, key_lanes(0)), key_lanes(1)), key_lanes(2))
}

/// Prepares the best backend for this machine. The portable backend is the
/// only one, so there is nothing to prepare.
pub fn new_optimal() {
}

fn salt_key(k: usize) -> (key: State)
    requires
        k < 3,
    ensures
        key@ == key_lanes(k as int),
{
    ld(&KEYS, 4 * k)
}

/// Runs the unrolled loop over `input` from `ptr` to the end, which must be a
/// whole number of groups of eight blocks. `hash_vector` is the running hash
/// and `len` the length of the whole message.
pub fn compress_8(input: &[u8], ptr: usize, hash_vector: State, len: usize) -> (state: State)
    requires
        ptr <= input.len(),
        (input.len() - ptr) % 128 == 0,
    ensures
        state@ == compress_8_lanes(input@.skip(ptr as int), hash_vector@, len),
{
    let ghost data = input@.skip(ptr as int);
    let ghost mut acc = initial_lanes(hash_vector@);
    let ghost mut done: nat = 0;
    let end_address = input.len();
    let mut ptr = ptr;
    let mut t1 = new();
    let mut t2 = new();
    let mut lane1 = hash_vector;
    let mut lane2 = hash_vector;
    while ptr < end_address
        invariant
            end_address == input.len(),
            ptr <= end_address,
            (end_address - ptr) % 128 == 0,
            data == input@.skip(end_address - data.len()),
            data.len() <= end_address,
            ptr == end_address - data.len() + 128 * done,
            acc == absorb_groups(initial_lanes(hash_vector@), data, done),
            t1@ == acc.t1,
            t2@ == acc.t2,
            lane1@ == acc.lane1,
            lane2@ == acc.lane2,
        decreases end_address - ptr,
    {
        let ghost group = data.subrange(128 * (done as int), 128 * (done as int + 1));
        let mut v0 = load_unaligned(input, ptr);
        let mut v1 = load_unaligned(input, ptr + 16);
        let v2 = load_unaligned(input, ptr + 32);
        let v3 = load_unaligned(input, ptr + 48);
        let v4 = load_unaligned(input, ptr + 64);
        let v5 = load_unaligned(input, ptr + 80);
        let v6 = load_unaligned(input, ptr + 96);
        let v7 = load_unaligned(input, ptr + 112);
        proof {
            assert(v0@ =~= block(group, 0));
            assert(v1@ =~= block(group, 16));
            assert(v2@ =~= block(group, 32));
            assert(v3@ =~= block(group, 48));
            assert(v4@ =~= block(group, 64));
            assert(v5@ =~= block(group, 80));
            assert(v6@ =~= block(group, 96));
            assert(v7@ =~= block(group, 112));
        }
        ptr += 128;

        v0 = aes_encrypt(v0, v2);
        v1 = aes_encrypt(v1, v3);

        v0 = aes_encrypt(v0, v4);
        v1 = aes_encrypt(v1, v5);

        v0 = aes_encrypt(v0, v6);
        v1 = aes_encrypt(v1, v7);

        t1 = add_u8(t1, salt_key(0));
        t2 = add_u8(t2, salt_key(1));

        lane1 = aes_encrypt_last(aes_encrypt(v0, t1), lane1);
        lane2 = aes_encrypt_last(aes_encrypt(v1, t2), lane2);
        proof {
            acc = absorb_group(acc, group);
            done = done + 1;
        }
    }
    proof {
        assert(done == data.len() / 128);
    }
    // The message length keeps messages of equal content and different
    // length apart.
    let len_vec = load_u32(#[verifier::truncate] (len as u32));
    lane1 = add_u8(lane1, len_vec);
    lane2 = add_u8(lane2, len_vec);
    // Merge the lanes.
    aes_encrypt(lane1, lane2)
}

/// Compresses `input` from `ptr` to the end, which must be a whole number of
/// blocks, into `hash_vector`. The blocks that do not fill a group of eight
/// are chained in first, one AES round each; the groups then go through the
/// unrolled loop. `len` is the length of the whole message.
pub fn compress_many(input: &[u8], ptr: usize, hash_vector: State, len: usize) -> (state: State)
    requires
        ptr <= input.len(),
        (input.len() - ptr) % 16 == 0,
    ensures
        state@ == compress_many_lanes(input@.skip(ptr as int), hash_vector@, len),
{
    let ghost data = input@.skip(ptr as int);
    let end = input.len();
    let remaining_bytes = end - ptr;
    let unrollable_blocks_count: usize = remaining_bytes / 128 * 8;
    let remaining_bytes = remaining_bytes - unrollable_blocks_count * 16;
    let end_address = ptr + remaining_bytes / 16 * 16;
    let ghost start = ptr;
    let ghost initial = hash_vector@;
    let ghost singles: nat = ((data.len() / 16) % 8) as nat;
    assert(remaining_bytes == 16 * singles);

    // Chain in single blocks until a whole number of groups is left.
    let mut ptr = ptr;
    let mut hash_vector = hash_vector;
    let ghost mut done: nat = 0;
    while ptr < end_address
        invariant
            ptr <= end_address <= input.len(),
            ptr == start + 16 * done,
            end_address == start + 16 * singles,
            data == input@.skip(start as int),
            hash_vector@ == absorb_blocks(initial, data, done),
        decreases end_address - ptr,
    {
        let v0 = load_unaligned(input, ptr);
        assert(v0@ =~= block(data, 16 * (done as int)));
        ptr += 16;
        hash_vector = aes_encrypt(hash_vector, v0);
        proof {
            done = done + 1;
        }
    }
    assert(done == singles);
    assert(input@.skip(ptr as int) =~= data.skip(16 * (singles as int)));
    // The rest is a whole number of groups of eight blocks.
    compress_8(input, ptr, hash_vector, len)
}

/// Applies the three closing AES rounds to the compressed state.
pub fn finalize(hash: State) -> (out: State)
    ensures
        out@ == finalize_lanes(hash@),
{
    let mut hash = aes_encrypt(hash, salt_key(0));
    hash = aes_encrypt(hash, salt_key(1));
    hash = aes_encrypt_last(hash, salt_key(2));
    hash
}

/// Where `data` begins in memory, by `<[u8]>::as_ptr`. An address differs from
/// run to run, so nothing is claimed of it: it only steers the choice between
/// two loads that give the same register.
#[verifier::external_body]
fn address_of(data: &[u8]) -> (address: usize) {
    data.as_ptr() as usize
}

/// Compresses the whole message into one register.
pub fn compress_all(input: &[u8]) -> (state: State)
    ensures
        state@ == compress_all_lanes(input@),
{
    let len = input.len();
    if len == 0 {
        return new();
    }
    if len <= 16 {
        // The message fits one register, and a full-width read could run
        // past its end: the partial load decides whether to read or to copy.
        assert(input@.take(len as int) =~= input@);
        return get_partial(input, len, address_of(input));
    }
    let mut hash_vector: State;
    let mut ptr: usize;

    let extra_bytes_count = len % 16;
    if extra_bytes_count == 0 {
        hash_vector = load_unaligned(input, 0);
        ptr = 16;
    } else {
        // The message is not a whole number of blocks. The odd bytes are
        // taken first: more input follows them, so a full-width read is sound.
        hash_vector = get_partial_unsafe(input, extra_bytes_count);
        ptr = extra_bytes_count;
    }

    let mut v0 = load_unaligned(input, ptr);
    ptr += 16;

    if len > 32 {
        let v = load_unaligned(input, ptr);
        ptr += 16;
        v0 = aes_encrypt(v0, v);

        if len > 48 {
            // The message is long: the rest goes through the unrolled loop.
            hash_vector = compress_many(input, ptr, hash_vector, len);
        }
    }
    aes_encrypt_last(hash_vector, aes_encrypt(aes_encrypt(v0, salt_key(0)), salt_key(1)))
}

} // verus!
