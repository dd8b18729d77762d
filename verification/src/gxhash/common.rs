//! The register: sixteen byte lanes that can also be read as one 128-bit
//! integer. Every operation is stated over the lanes, a `Seq<u8>` of length 16
//! in memory order.

use vstd::prelude::*;

verus! {

/// Number of byte lanes in a register.
pub const REGISTER_WIDTH: usize = 16;

/// The all-zero register.
pub open spec fn zero_lanes() -> Seq<u8> {
    Seq::new(16, |i: int| 0u8)
}

/// Lane-wise exclusive or.
pub open spec fn xor_lanes(a: Seq<u8>, b: Seq<u8>) -> Seq<u8> {
    Seq::new(16, |i: int| a[i] ^ b[i])
}

/// Sum of two bytes modulo 256.
pub open spec fn add_wrapping(x: u8, y: u8) -> u8 {
    ((x as int + y as int) % 256) as u8
}

/// Lane-wise sum modulo 256: no carry crosses from one lane into the next.
pub open spec fn add_lanes(a: Seq<u8>, b: Seq<u8>) -> Seq<u8> {
    Seq::new(16, |i: int| add_wrapping(a[i], b[i]))
}

/// A scalar's bytes repeated until the register is full.
pub open spec fn repeat_lanes(word: Seq<u8>) -> Seq<u8> {
    Seq::new(16, |i: int| word[i % (word.len() as int)])
}

/// The two bytes of a 16-bit integer, least significant first.
pub open spec fn le_bytes_u16(x: u16) -> Seq<u8> {
    seq![x as u8, (x >> 8) as u8]
}

/// The four bytes of a 32-bit integer, least significant first.
pub open spec fn le_bytes_u32(x: u32) -> Seq<u8> {
    seq![x as u8, (x >> 8) as u8, (x >> 16) as u8, (x >> 24) as u8]
}

/// The eight bytes of a 64-bit integer, least significant first.
pub open spec fn le_bytes_u64(x: u64) -> Seq<u8> {
    seq![
        x as u8,
        (x >> 8) as u8,
        (x >> 16) as u8,
        (x >> 24) as u8,
        (x >> 32) as u8,
        (x >> 40) as u8,
        (x >> 48) as u8,
        (x >> 56) as u8,
    ]
}

/// The sixteen bytes of a 128-bit integer, least significant first.
pub open spec fn le_bytes_u128(x: u128) -> Seq<u8> {
    seq![
        x as u8,
        (x >> 8) as u8,
        (x >> 16) as u8,
        (x >> 24) as u8,
        (x >> 32) as u8,
        (x >> 40) as u8,
        (x >> 48) as u8,
        (x >> 56) as u8,
        (x >> 64) as u8,
        (x >> 72) as u8,
        (x >> 80) as u8,
        (x >> 88) as u8,
        (x >> 96) as u8,
        (x >> 104) as u8,
        (x >> 112) as u8,
        (x >> 120) as u8,
    ]
}

/// The 128-bit integer whose little-endian bytes are the given lanes.
pub open spec fn lanes_to_u128(s: Seq<u8>) -> u128 {
    (s[0] as u128) | (s[1] as u128) << 8 | (s[2] as u128) << 16 | (s[3] as u128) << 24 | (s[4] as u128)
        << 32 | (s[5] as u128) << 40 | (s[6] as u128) << 48 | (s[7] as u128) << 56 | (s[8] as u128)
        << 64 | (s[9] as u128) << 72 | (s[10] as u128) << 80 | (s[11] as u128) << 88 | (s[12] as u128)
        << 96 | (s[13] as u128) << 104 | (s[14] as u128) << 112 | (s[15] as u128) << 120
}

/// Four 32-bit words laid out in memory order, each least significant byte
/// first.
pub open spec fn words_lanes(words: Seq<u32>) -> Seq<u8> {
    Seq::new(16, |i: int| le_bytes_u32(words[i / 4])[i % 4])
}

/// A 16-byte scratch buffer, the byte view of a register.
#[derive(Clone, Copy, Debug, PartialEq, Eq)]
pub struct Bytes(pub [u8; 16]);

impl View for Bytes {
    type V = Seq<u8>;

    open spec fn view(&self) -> Seq<u8> {
        self.0@
    }
}

impl Bytes {
    /// A buffer of sixteen zero bytes.
    pub fn new() -> (buffer: Bytes)
        ensures
            buffer@ == zero_lanes(),
    {
        let buffer = Bytes([0u8; 16]);
        assert(buffer@ =~= zero_lanes());
        buffer
    }
}

/// One 128-bit register. Its bytes, its integer value and its lanes are three
/// readings of the same sixteen bytes.
#[derive(Clone, Copy, Debug, PartialEq, Eq)]
pub struct State {
    pub bytes: Bytes,
}

impl View for State {
    type V = Seq<u8>;

    open spec fn view(&self) -> Seq<u8> {
        self.bytes@
    }
}

impl State {
    /// The all-zero register.
    pub fn new() -> (state: State)
        ensures
            state@ == zero_lanes(),
    {
        State { bytes: Bytes::new() }
    }

    /// Loads four consecutive 32-bit words, starting at `offset`, as one
    /// register in memory order.
    pub fn ld(array: &[u32], offset: usize) -> (state: State)
        requires
            offset + 4 <= array.len(),
        ensures
            state@ == words_lanes(array@.subrange(offset as int, offset + 4)),
    {
        let mut out = [0u8; 16];
        let mut k: usize = 0;
        while k < 4
            invariant
                k <= 4,
                offset + 4 <= array.len(),
                forall|i: int| 0 <= i < 4 * k ==> out@[i] == le_bytes_u32(array@[offset + i / 4])[i % 4],
            decreases 4 - k,
        {
            let w: u32 = array[offset + k];
            out[4 * k] = #[verifier::truncate] (w as u8);
            out[4 * k + 1] = #[verifier::truncate] ((w >> 8) as u8);
            out[4 * k + 2] = #[verifier::truncate] ((w >> 16) as u8);
            out[4 * k + 3] = #[verifier::truncate] ((w >> 24) as u8);
            k += 1;
        }
        let state = State { bytes: Bytes(out) };
        assert(state@ =~= words_lanes(array@.subrange(offset as int, offset + 4)));
        state
    }

    /// Loads a register from an aligned 16-byte buffer.
    pub fn load_vector(p: &Bytes) -> (state: State)
        ensures
            state@ == p@,
    {
        State { bytes: *p }
    }

    /// Adds `other` to `self` lane by lane, each lane modulo 256.
    pub fn add_u8(self, other: State) -> (sum: State)
        ensures
            sum@ == add_lanes(self@, other@),
    {
        let mut out = self.bytes.0;
        let mut i: usize = 0;
        while i < 16
            invariant
                i <= 16,
                forall|j: int| 0 <= j < i ==> out@[j] == add_wrapping(self@[j], other@[j]),
                forall|j: int| i <= j < 16 ==> out@[j] == self@[j],
            decreases 16 - i,
        {
            out[i] = out[i].wrapping_add(other.bytes.0[i]);
            i += 1;
        }
        let sum = State { bytes: Bytes(out) };
        assert(sum@ =~= add_lanes(self@, other@));
        sum
    }

    /// Exclusive or of two registers.
    pub fn bitxor(self, other: State) -> (out: State)
        ensures
            out@ == xor_lanes(self@, other@),
    {
        let mut out = self.bytes.0;
        let mut i: usize = 0;
        while i < 16
            invariant
                i <= 16,
                forall|j: int| 0 <= j < i ==> out@[j] == self@[j] ^ other@[j],
                forall|j: int| i <= j < 16 ==> out@[j] == self@[j],
            decreases 16 - i,
        {
            out[i] = out[i] ^ other.bytes.0[i];
            i += 1;
        }
        let out = State { bytes: Bytes(out) };
        assert(out@ =~= xor_lanes(self@, other@));
        out
    }
}

impl State {
    /// The register whose little-endian integer value is `x`.
    pub fn from_u128(x: u128) -> (state: State)
        ensures
            state@ == le_bytes_u128(x),
    {
        let out: [u8; 16] = [
            #[verifier::truncate] (x as u8),
            #[verifier::truncate] ((x >> 8) as u8),
            #[verifier::truncate] ((x >> 16) as u8),
            #[verifier::truncate] ((x >> 24) as u8),
            #[verifier::truncate] ((x >> 32) as u8),
            #[verifier::truncate] ((x >> 40) as u8),
            #[verifier::truncate] ((x >> 48) as u8),
            #[verifier::truncate] ((x >> 56) as u8),
            #[verifier::truncate] ((x >> 64) as u8),
            #[verifier::truncate] ((x >> 72) as u8),
            #[verifier::truncate] ((x >> 80) as u8),
            #[verifier::truncate] ((x >> 88) as u8),
            #[verifier::truncate] ((x >> 96) as u8),
            #[verifier::truncate] ((x >> 104) as u8),
            #[verifier::truncate] ((x >> 112) as u8),
            #[verifier::truncate] ((x >> 120) as u8),
        ];
        let state = State { bytes: Bytes(out) };
        assert(state@ =~= le_bytes_u128(x));
        state
    }

    /// The register read as one little-endian 128-bit integer.
    pub fn to_u128(self) -> (x: u128)
        ensures
            x == lanes_to_u128(self@),
            le_bytes_u128(x) == self@,
    {
        let b = &self.bytes.0;
        let x: u128 = (b[0] as u128) | (b[1] as u128) << 8 | (b[2] as u128) << 16 | (b[3] as u128)
            << 24 | (b[4] as u128) << 32 | (b[5] as u128) << 40 | (b[6] as u128) << 48 | (
        b[7] as u128) << 56 | (b[8] as u128) << 64 | (b[9] as u128) << 72 | (b[10] as u128) << 80
            | (b[11] as u128) << 88 | (b[12] as u128) << 96 | (b[13] as u128) << 104 | (
        b[14] as u128) << 112 | (b[15] as u128) << 120;
        proof {
            lemma_lanes_u128_roundtrip(self@);
        }
        x
    }

    /// The register as a 16-byte buffer.
    pub fn to_bytes(self) -> (buffer: Bytes)
        ensures
            buffer@ == self@,
    {
        self.bytes
    }
}

/// Reading sixteen lanes as an integer and writing that integer back as lanes
/// gives the same lanes: the byte view and the integer view of a register
/// always denote the same bits.
pub proof fn lemma_lanes_u128_roundtrip(s: Seq<u8>)
    requires
        s.len() == 16,
    ensures
        le_bytes_u128(lanes_to_u128(s)) == s,
{
    let (s0, s1, s2, s3, s4, s5, s6, s7) = (s[0], s[1], s[2], s[3], s[4], s[5], s[6], s[7]);
    let (s8, s9, s10, s11, s12, s13, s14, s15) = (
        s[8],
        s[9],
        s[10],
        s[11],
        s[12],
        s[13],
        s[14],
        s[15],
    );
    let x: u128 = lanes_to_u128(s);
    assert(x as u8 == s0 && (x >> 8) as u8 == s1 && (x >> 16) as u8 == s2 && (x >> 24) as u8 == s3
        && (x >> 32) as u8 == s4 && (x >> 40) as u8 == s5 && (x >> 48) as u8 == s6 && (x >> 56) as u8
        == s7 && (x >> 64) as u8 == s8 && (x >> 72) as u8 == s9 && (x >> 80) as u8 == s10 && (x
        >> 88) as u8 == s11 && (x >> 96) as u8 == s12 && (x >> 104) as u8 == s13 && (x >> 112) as u8
        == s14 && (x >> 120) as u8 == s15) by (bit_vector)
        requires
            x == (s0 as u128) | (s1 as u128) << 8 | (s2 as u128) << 16 | (s3 as u128) << 24 | (
            s4 as u128) << 32 | (s5 as u128) << 40 | (s6 as u128) << 48 | (s7 as u128) << 56 | (
            s8 as u128) << 64 | (s9 as u128) << 72 | (s10 as u128) << 80 | (s11 as u128) << 88 | (
            s12 as u128) << 96 | (s13 as u128) << 104 | (s14 as u128) << 112 | (s15 as u128) << 120,
    ;
    assert(le_bytes_u128(x) =~= s);
}

/// Writing an integer as lanes and reading the lanes back as an integer gives
/// the same integer.
pub proof fn lemma_u128_lanes_roundtrip(x: u128)
    ensures
        lanes_to_u128(le_bytes_u128(x)) == x,
{
    assert(x == (x as u8 as u128) | ((x >> 8) as u8 as u128) << 8 | ((x >> 16) as u8 as u128) << 16
        | ((x >> 24) as u8 as u128) << 24 | ((x >> 32) as u8 as u128) << 32 | ((x >> 40) as u8 as u128)
        << 40 | ((x >> 48) as u8 as u128) << 48 | ((x >> 56) as u8 as u128) << 56 | ((x >> 64) as u8 as u128)
        << 64 | ((x >> 72) as u8 as u128) << 72 | ((x >> 80) as u8 as u128) << 80 | ((x >> 88) as u8 as u128)
        << 88 | ((x >> 96) as u8 as u128) << 96 | ((x >> 104) as u8 as u128) << 104 | ((x
        >> 112) as u8 as u128) << 112 | ((x >> 120) as u8 as u128) << 120) by (bit_vector);
}

/// The all-zero register.
pub fn new() -> (state: State)
    ensures
        state@ == zero_lanes(),
{
    State::new()
}

/// Exclusive or of two registers.
pub fn xor(a: State, b: State) -> (out: State)
    ensures
        out@ == xor_lanes(a@, b@),
{
    a.bitxor(b)
}

/// Lane-wise sum of two registers, each lane modulo 256.
pub fn add_u8(a: State, b: State) -> (sum: State)
    ensures
        sum@ == add_lanes(a@, b@),
{
    a.add_u8(b)
}

/// Loads four consecutive 32-bit words, starting at `offset`, as one register.
pub fn ld(array: &[u32], offset: usize) -> (state: State)
    requires
        offset + 4 <= array.len(),
    ensures
        state@ == words_lanes(array@.subrange(offset as int, offset + 4)),
{
    State::ld(array, offset)
}

/// Reads exactly one register width from `data`, starting at `offset`. No
/// alignment is asked of `offset`.
pub fn load_unaligned(data: &[u8], offset: usize) -> (state: State)
    requires
        offset + 16 <= data.len(),
    ensures
        state@ == data@.subrange(offset as int, offset + 16),
{
    let mut out = [0u8; 16];
    let mut i: usize = 0;
    while i < 16
        invariant
            i <= 16,
            offset + 16 <= data.len(),
            forall|j: int| 0 <= j < i ==> out@[j] == data@[offset + j],
        decreases 16 - i,
    {
        out[i] = data[offset + i];
        i += 1;
    }
    let state = State { bytes: Bytes(out) };
    assert(state@ =~= data@.subrange(offset as int, offset + 16));
    state
}

/// Fills every lane with the byte `x`.
pub fn load_u8(x: u8) -> (state: State)
    ensures
        state@ == repeat_lanes(seq![x]),
{
    let state = State { bytes: Bytes([x; 16]) };
    assert(state@ =~= repeat_lanes(seq![x]));
    state
}

/// Fills the register with eight copies of `x`, least significant byte first.
pub fn load_u16(x: u16) -> (state: State)
    ensures
        state@ == repeat_lanes(le_bytes_u16(x)),
{
    let b0: u8 = #[verifier::truncate] (x as u8);
    let b1: u8 = #[verifier::truncate] ((x >> 8) as u8);
    let out: [u8; 16] = [b0, b1, b0, b1, b0, b1, b0, b1, b0, b1, b0, b1, b0, b1, b0, b1];
    let state = State { bytes: Bytes(out) };
    assert forall|i: int| 0 <= i < 16 implies state@[i] == le_bytes_u16(x)[i % 2] by {
        assert(i % 2 == i - 2 * (i / 2));
        assert(0 <= i / 2 < 8);
    }
    assert(state@ =~= repeat_lanes(le_bytes_u16(x)));
    state
}

/// Fills the register with four copies of `x`, least significant byte first.
pub fn load_u32(x: u32) -> (state: State)
    ensures
        state@ == repeat_lanes(le_bytes_u32(x)),
{
    let b0: u8 = #[verifier::truncate] (x as u8);
    let b1: u8 = #[verifier::truncate] ((x >> 8) as u8);
    let b2: u8 = #[verifier::truncate] ((x >> 16) as u8);
    let b3: u8 = #[verifier::truncate] ((x >> 24) as u8);
    let out: [u8; 16] = [b0, b1, b2, b3, b0, b1, b2, b3, b0, b1, b2, b3, b0, b1, b2, b3];
    let state = State { bytes: Bytes(out) };
    assert forall|i: int| 0 <= i < 16 implies state@[i] == le_bytes_u32(x)[i % 4] by {
        assert(i % 4 == i - 4 * (i / 4));
        assert(0 <= i / 4 < 4);
    }
    assert(state@ =~= repeat_lanes(le_bytes_u32(x)));
    state
}

/// Fills the register with two copies of `x`, least significant byte first.
pub fn load_u64(x: u64) -> (state: State)
    ensures
        state@ == repeat_lanes(le_bytes_u64(x)),
{
    let b0: u8 = #[verifier::truncate] (x as u8);
    let b1: u8 = #[verifier::truncate] ((x >> 8) as u8);
    let b2: u8 = #[verifier::truncate] ((x >> 16) as u8);
    let b3: u8 = #[verifier::truncate] ((x >> 24) as u8);
    let b4: u8 = #[verifier::truncate] ((x >> 32) as u8);
    let b5: u8 = #[verifier::truncate] ((x >> 40) as u8);
    let b6: u8 = #[verifier::truncate] ((x >> 48) as u8);
    let b7: u8 = #[verifier::truncate] ((x >> 56) as u8);
    let out: [u8; 16] = [b0, b1, b2, b3, b4, b5, b6, b7, b0, b1, b2, b3, b4, b5, b6, b7];
    let state = State { bytes: Bytes(out) };
    assert forall|i: int| 0 <= i < 16 implies state@[i] == le_bytes_u64(x)[i % 8] by {
        assert(i % 8 == if i < 8 { i } else { i - 8 });
    }
    assert(state@ =~= repeat_lanes(le_bytes_u64(x)));
    state
}

/// The register whose little-endian integer value is `x`.
pub fn load_u128(x: u128) -> (state: State)
    ensures
        state@ == le_bytes_u128(x),
{
    State::from_u128(x)
}

/// Fills every lane with the bit pattern of `x`.
pub fn load_i8(x: i8) -> (state: State)
    ensures
        state@ == repeat_lanes(seq![x as u8]),
{
    load_u8(#[verifier::truncate] (x as u8))
}

/// Fills the register with eight copies of the bit pattern of `x`.
pub fn load_i16(x: i16) -> (state: State)
    ensures
        state@ == repeat_lanes(le_bytes_u16(x as u16)),
{
    load_u16(#[verifier::truncate] (x as u16))
}

/// Fills the register with four copies of the bit pattern of `x`.
pub fn load_i32(x: i32) -> (state: State)
    ensures
        state@ == repeat_lanes(le_bytes_u32(x as u32)),
{
    load_u32(#[verifier::truncate] (x as u32))
}

/// Fills the register with two copies of the bit pattern of `x`.
pub fn load_i64(x: i64) -> (state: State)
    ensures
        state@ == repeat_lanes(le_bytes_u64(x as u64)),
{
    load_u64(#[verifier::truncate] (x as u64))
}

/// The register holding the bit pattern of `x`, least significant byte first.
pub fn load_i128(x: i128) -> (state: State)
    ensures
        state@ == le_bytes_u128(x as u128),
{
    load_u128(#[verifier::truncate] (x as u128))
}

} // verus!
