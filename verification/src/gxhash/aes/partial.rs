//! Loading a chunk shorter than a register.
//!
//! A chunk of `len` bytes becomes a register whose first `len` lanes hold the
//! chunk, whose other lanes hold zero, and to every lane of which `len` is
//! then added. There are two ways to get there. The fast one reads a full
//! register width and masks off the lanes past the chunk; it may only be taken
//! where those extra bytes can be read at all. The other copies the chunk into
//! a zeroed buffer. Both give the same register.

use vstd::prelude::*;
use crate::gxhash::common::{
    add_lanes,
    add_u8,
    add_wrapping,
    load_u8,
    load_unaligned,
    repeat_lanes,
    Bytes,
    State,
    REGISTER_WIDTH,
};

verus! {

/// Size of a memory page, taken as small as any common system has it.
pub const PAGE_SIZE: usize = 0x1000;

/// A full-width read at `address` ends on the page it starts on.
pub open spec fn same_page(address: int) -> bool {
    address % (PAGE_SIZE as int) <= PAGE_SIZE - REGISTER_WIDTH
}

/// The chunk followed by zeros up to the register width.
pub open spec fn pad_lanes(chunk: Seq<u8>) -> Seq<u8> {
    Seq::new(16, |i: int| if i < chunk.len() { chunk[i] } else { 0u8 })
}

/// The register that stands for a chunk of at most sixteen bytes: the padded
/// chunk with the chunk's length added to every lane.
pub open spec fn partial_lanes(chunk: Seq<u8>) -> Seq<u8> {
    add_lanes(pad_lanes(chunk), repeat_lanes(seq![chunk.len() as u8]))
}

/// All ones in the lanes below `len`, zero in the others.
pub open spec fn lane_mask(len: int) -> Seq<u8> {
    Seq::new(16, |i: int| if len > i { 0xffu8 } else { 0u8 })
}

/// Lane-wise and.
pub open spec fn and_lanes(a: Seq<u8>, b: Seq<u8>) -> Seq<u8> {
    Seq::new(16, |i: int| a[i] & b[i])
}

/// What the masking path computes from a full-width window: the window with
/// the lanes at or past `len` cleared, and `len` added to every lane.
pub open spec fn masked_lanes(window: Seq<u8>, len: int) -> Seq<u8> {
    add_lanes(and_lanes(window, lane_mask(len)), repeat_lanes(seq![len as u8]))
}

/// Tells whether a full-width read at `address` stays within one page.
pub fn check_same_page(address: usize) -> (ok: bool)
    ensures
        ok == same_page(address as int),
{
    let offset_within_page: usize = address & (PAGE_SIZE - 1);
    assert(address & 0xfff == address % 4096) by (bit_vector);
    offset_within_page <= PAGE_SIZE - REGISTER_WIDTH
}

/// The page test holds exactly when the first and the last byte of a
/// full-width read lie on the same page.
pub proof fn lemma_same_page_iff_no_crossing(address: int)
    requires
        0 <= address,
    ensures
        same_page(address) <==> address / (PAGE_SIZE as int) == (address + REGISTER_WIDTH - 1) / (
        PAGE_SIZE as int),
{
}

/// In memory made of whole pages, a full-width read that passes the page test
/// and starts inside the memory also ends inside it.
pub proof fn lemma_same_page_read_in_bounds(address: int, mapped: int)
    requires
        0 <= address < mapped,
        mapped % (PAGE_SIZE as int) == 0,
        same_page(address),
    ensures
        address + REGISTER_WIDTH <= mapped,
{
}

proof fn lemma_mask_byte(x: u8)
    by (bit_vector)
    ensures
        x & 0xffu8 == x,
        x & 0u8 == 0u8,
{
}

/// The bytes of the window past the chunk never reach the result: masking a
/// full-width window gives the register of its first `len` bytes alone.
pub proof fn lemma_masking_matches_copy(window: Seq<u8>, len: int)
    requires
        window.len() == 16,
        0 <= len <= 16,
    ensures
        masked_lanes(window, len) == partial_lanes(window.take(len)),
{
    assert forall|i: int| 0 <= i < 16 implies and_lanes(window, lane_mask(len))[i] == pad_lanes(
        window.take(len),
    )[i] by {
        lemma_mask_byte(window[i]);
    }
    assert(and_lanes(window, lane_mask(len)) =~= pad_lanes(window.take(len)));
}

/// Two chunks of the same length give the same register only if they are the
/// same chunk.
pub proof fn lemma_partial_lanes_injective(a: Seq<u8>, b: Seq<u8>)
    requires
        a.len() == b.len(),
        a.len() <= 16,
        partial_lanes(a) == partial_lanes(b),
    ensures
        a == b,
{
    assert forall|i: int| 0 <= i < a.len() implies a[i] == b[i] by {
        assert(partial_lanes(a)[i] == add_wrapping(a[i], a.len() as u8));
        assert(partial_lanes(b)[i] == add_wrapping(b[i], b.len() as u8));
    }
    assert(a =~= b);
}

/// Padding never makes two chunks collide: chunks of different lengths that
/// are equal once padded with zeros still give different registers, because
/// the length is added to every lane.
pub proof fn lemma_padding_does_not_collide(a: Seq<u8>, b: Seq<u8>)
    requires
        a.len() <= 16,
        b.len() <= 16,
        a.len() != b.len(),
        pad_lanes(a) == pad_lanes(b),
    ensures
        partial_lanes(a) != partial_lanes(b),
{
    assert(partial_lanes(a)[0] == add_wrapping(pad_lanes(a)[0], a.len() as u8));
    assert(partial_lanes(b)[0] == add_wrapping(pad_lanes(b)[0], b.len() as u8));
}

/// Loads the first `len` bytes of `data` by reading a full register width and
/// clearing the lanes past the chunk. The caller guarantees that sixteen bytes
/// can be read.
pub fn get_partial_unsafe(data: &[u8], len: usize) -> (state: State)
    requires
        len <= 16,
        16 <= data.len(),
    ensures
        state@ == masked_lanes(data@.take(16), len as int),
        state@ == partial_lanes(data@.take(len as int)),
{
    let window = load_unaligned(data, 0);
    let mut masked = window.bytes.0;
    let mut i: usize = 0;
    while i < 16
        invariant
            i <= 16,
            len <= 16,
            forall|j: int| 0 <= j < i ==> masked@[j] == window@[j] & lane_mask(len as int)[j],
            forall|j: int| i <= j < 16 ==> masked@[j] == window@[j],
        decreases 16 - i,
    {
        let keep: u8 = if len > i {
            0xff
        } else {
            0
        };
        masked[i] = masked[i] & keep;
        i += 1;
    }
    let partial_vector = State { bytes: Bytes(masked) };
    let state = add_u8(partial_vector, load_u8(len as u8));
    proof {
        assert(data@.subrange(0, 16) =~= data@.take(16));
        assert(partial_vector@ =~= and_lanes(window@, lane_mask(len as int)));
        lemma_masking_matches_copy(window@, len as int);
        assert(data@.take(16).take(len as int) =~= data@.take(len as int));
    }
    state
}

/// Loads the first `len` bytes of `data` by copying them into a zeroed buffer
/// of one register width. Nothing past the chunk is read.
pub fn get_partial_safe(data: &[u8], len: usize) -> (state: State)
    requires
        len <= 16,
        len <= data.len(),
    ensures
        state@ == partial_lanes(data@.take(len as int)),
{
    let mut scratch = [0u8; 16];
    let mut i: usize = 0;
    while i < len
        invariant
            i <= len,
            len <= 16,
            len <= data.len(),
            forall|j: int| 0 <= j < i ==> scratch@[j] == data@[j],
            forall|j: int| i <= j < 16 ==> scratch@[j] == 0u8,
        decreases len - i,
    {
        scratch[i] = data[i];
        i += 1;
    }
    let buffer = Bytes(scratch);
    let partial_vector = State::load_vector(&buffer);
    assert(partial_vector@ =~= pad_lanes(data@.take(len as int)));
    add_u8(partial_vector, load_u8(len as u8))
}

/// Loads the first `len` bytes of `data`, which lie at `address`. Where a
/// full-width read at that address stays within its page and `data` holds a
/// full register width, the masking path is taken; the copying path
/// otherwise. The result does not depend on which.
pub fn get_partial(data: &[u8], len: usize, address: usize) -> (state: State)
    requires
        len <= 16,
        len <= data.len(),
    ensures
        state@ == partial_lanes(data@.take(len as int)),
{
    if check_same_page(address) && data.len() >= 16 {
        get_partial_unsafe(data, len)
    } else {
        get_partial_safe(data, len)
    }
}

/// A register type that can be loaded from a chunk shorter than itself.
pub trait AESHasherState: Sized {
    /// The register's lanes in memory order.
    spec fn lanes(&self) -> Seq<u8>;

    /// Loads the first `len` bytes of `data`, which lie at `address`.
    fn get_partial(data: &[u8], len: usize, address: usize) -> (state: Self)
        requires
            len <= 16,
            len <= data.len(),
        ensures
            state.lanes() == partial_lanes(data@.take(len as int)),
    ;
}

impl AESHasherState for State {
    open spec fn lanes(&self) -> Seq<u8> {
        self@
    }

    fn get_partial(data: &[u8], len: usize, address: usize) -> (state: State) {
        get_partial(data, len, address)
    }
}

} // verus!
