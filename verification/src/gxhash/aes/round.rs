//! One round of AES on a register, the only nonlinear mixing step of the hash.
//!
//! The sixteen lanes are the AES state in column order: lane `i` is row
//! `i % 4` of column `i / 4`.

use vstd::prelude::*;
use crate::gxhash::aes::sbox::{
    gf_mul,
    lemma_mul_small,
    lemma_sbox_injective,
    sbox,
    sub_byte,
    xtime,
};
use crate::gxhash::common::{xor, xor_lanes, Bytes, State};

verus! {

/// Every lane replaced by its image under the substitution box.
pub open spec fn sub_bytes(s: Seq<u8>) -> Seq<u8> {
    Seq::new(16, |i: int| sbox(s[i]))
}

/// Row `r` rotated left by `r` columns.
pub open spec fn shift_rows(s: Seq<u8>) -> Seq<u8> {
    Seq::new(16, |i: int| s[(i + 4 * (i % 4)) % 16])
}

/// One byte of a mixed column: the column, read from that byte's row onwards,
/// weighted by 2, 3, 1, 1 in GF(2^8).
pub open spec fn mix_column(a0: u8, a1: u8, a2: u8, a3: u8) -> u8 {
    gf_mul(a0, 2) ^ gf_mul(a1, 3) ^ a2 ^ a3
}

/// Every column multiplied by the fixed circulant matrix of AES.
pub open spec fn mix_columns(s: Seq<u8>) -> Seq<u8> {
    Seq::new(
        16,
        |i: int|
            {
                let c = i - i % 4;
                mix_column(
                    s[c + i % 4],
                    s[c + (i + 1) % 4],
                    s[c + (i + 2) % 4],
                    s[c + (i + 3) % 4],
                )
            },
    )
}

/// A full AES round: substitute, shift rows, mix columns, add the round key.
#[verifier::opaque]
pub open spec fn aes_round(data: Seq<u8>, key: Seq<u8>) -> Seq<u8> {
    xor_lanes(mix_columns(shift_rows(sub_bytes(data))), key)
}

/// The last AES round: substitute, shift rows, add the round key; no column
/// mixing.
#[verifier::opaque]
pub open spec fn aes_round_last(data: Seq<u8>, key: Seq<u8>) -> Seq<u8> {
    xor_lanes(shift_rows(sub_bytes(data)), key)
}

/// Both rounds give a full register, whatever they are given.
pub proof fn lemma_round_width(data: Seq<u8>, key: Seq<u8>)
    ensures
        aes_round(data, key).len() == 16,
        aes_round_last(data, key).len() == 16,
{
    reveal(aes_round);
    reveal(aes_round_last);
}

proof fn lemma_xor_cancels(a: u8, b: u8, c: u8)
    by (bit_vector)
    requires
        a ^ c == b ^ c,
    ensures
        a == b,
{
}

proof fn lemma_xor_cancels_left(a: u8, b: u8, c: u8)
    by (bit_vector)
    requires
        a ^ b == a ^ c,
    ensures
        b == c,
{
}

proof fn lemma_mixed_column_determines_column(
    a0: u8,
    a1: u8,
    a2: u8,
    a3: u8,
    b0: u8,
    b1: u8,
    b2: u8,
    b3: u8,
)
    by (bit_vector)
    requires
        xtime(a0) ^ (xtime(a1) ^ a1) ^ a2 ^ a3 == xtime(b0) ^ (xtime(b1) ^ b1) ^ b2 ^ b3,
        xtime(a1) ^ (xtime(a2) ^ a2) ^ a3 ^ a0 == xtime(b1) ^ (xtime(b2) ^ b2) ^ b3 ^ b0,
        xtime(a2) ^ (xtime(a3) ^ a3) ^ a0 ^ a1 == xtime(b2) ^ (xtime(b3) ^ b3) ^ b0 ^ b1,
        xtime(a3) ^ (xtime(a0) ^ a0) ^ a1 ^ a2 == xtime(b3) ^ (xtime(b0) ^ b0) ^ b1 ^ b2,
    ensures
        a0 == b0,
        a1 == b1,
        a2 == b2,
        a3 == b3,
{
}

/// Exclusive or with a fixed register is one-to-one.
pub proof fn lemma_xor_lanes_injective(a: Seq<u8>, b: Seq<u8>, c: Seq<u8>)
    requires
        a.len() == 16,
        b.len() == 16,
    ensures
        xor_lanes(a, c) == xor_lanes(b, c) ==> a == b,
        xor_lanes(c, a) == xor_lanes(c, b) ==> a == b,
{
    if xor_lanes(a, c) == xor_lanes(b, c) {
        assert forall|i: int| 0 <= i < 16 implies a[i] == b[i] by {
            assert(xor_lanes(a, c)[i] == xor_lanes(b, c)[i]);
            lemma_xor_cancels(a[i], b[i], c[i]);
        }
        assert(a =~= b);
    }
    if xor_lanes(c, a) == xor_lanes(c, b) {
        assert forall|i: int| 0 <= i < 16 implies a[i] == b[i] by {
            assert(xor_lanes(c, a)[i] == xor_lanes(c, b)[i]);
            lemma_xor_cancels_left(c[i], a[i], b[i]);
        }
        assert(a =~= b);
    }
}

/// Substitution is one-to-one on registers.
pub proof fn lemma_sub_bytes_injective(a: Seq<u8>, b: Seq<u8>)
    requires
        a.len() == 16,
        b.len() == 16,
        sub_bytes(a) == sub_bytes(b),
    ensures
        a == b,
{
    assert forall|i: int| 0 <= i < 16 implies a[i] == b[i] by {
        assert(sub_bytes(a)[i] == sbox(a[i]));
        assert(sub_bytes(b)[i] == sbox(b[i]));
        lemma_sbox_injective(a[i], b[i]);
    }
    assert(a =~= b);
}

/// Shifting rows only moves lanes around, so it is one-to-one.
pub proof fn lemma_shift_rows_injective(a: Seq<u8>, b: Seq<u8>)
    requires
        a.len() == 16,
        b.len() == 16,
        shift_rows(a) == shift_rows(b),
    ensures
        a == b,
{
    assert forall|i: int| 0 <= i < 16 implies a[i] == b[i] by {
        // The lane that lane `i` is moved to.
        let j = (i + 12 * (i % 4)) % 16;
        assert((j + 4 * (j % 4)) % 16 == i);
        assert(shift_rows(a)[j] == a[i]);
        assert(shift_rows(b)[j] == b[i]);
    }
    assert(a =~= b);
}

proof fn lemma_mixed_column_agrees(a: Seq<u8>, b: Seq<u8>, c: int)
    requires
        a.len() == 16,
        b.len() == 16,
        mix_columns(a) == mix_columns(b),
        0 <= c < 4,
    ensures
        a[4 * c] == b[4 * c],
        a[4 * c + 1] == b[4 * c + 1],
        a[4 * c + 2] == b[4 * c + 2],
        a[4 * c + 3] == b[4 * c + 3],
{
    let m = mix_columns(a);
    let n = mix_columns(b);
    let (a0, a1, a2, a3) = (a[4 * c], a[4 * c + 1], a[4 * c + 2], a[4 * c + 3]);
    let (b0, b1, b2, b3) = (b[4 * c], b[4 * c + 1], b[4 * c + 2], b[4 * c + 3]);
    assert(m[4 * c] == mix_column(a0, a1, a2, a3));
    assert(m[4 * c + 1] == mix_column(a1, a2, a3, a0));
    assert(m[4 * c + 2] == mix_column(a2, a3, a0, a1));
    assert(m[4 * c + 3] == mix_column(a3, a0, a1, a2));
    assert(n[4 * c] == mix_column(b0, b1, b2, b3));
    assert(n[4 * c + 1] == mix_column(b1, b2, b3, b0));
    assert(n[4 * c + 2] == mix_column(b2, b3, b0, b1));
    assert(n[4 * c + 3] == mix_column(b3, b0, b1, b2));
    lemma_mul_small(a0);
    lemma_mul_small(a1);
    lemma_mul_small(a2);
    lemma_mul_small(a3);
    lemma_mul_small(b0);
    lemma_mul_small(b1);
    lemma_mul_small(b2);
    lemma_mul_small(b3);
    lemma_mixed_column_determines_column(a0, a1, a2, a3, b0, b1, b2, b3);
}

/// Mixing columns is one-to-one: the circulant matrix is invertible.
pub proof fn lemma_mix_columns_injective(a: Seq<u8>, b: Seq<u8>)
    requires
        a.len() == 16,
        b.len() == 16,
        mix_columns(a) == mix_columns(b),
    ensures
        a == b,
{
    lemma_mixed_column_agrees(a, b, 0);
    lemma_mixed_column_agrees(a, b, 1);
    lemma_mixed_column_agrees(a, b, 2);
    lemma_mixed_column_agrees(a, b, 3);
    assert(a =~= b);
}

/// For a fixed round key, a full round maps distinct registers to distinct
/// registers; for a fixed register, distinct round keys give distinct
/// results.
pub proof fn lemma_aes_round_injective(a: Seq<u8>, b: Seq<u8>, c: Seq<u8>)
    requires
        a.len() == 16,
        b.len() == 16,
    ensures
        aes_round(a, c) == aes_round(b, c) ==> a == b,
        aes_round(c, a) == aes_round(c, b) ==> a == b,
{
    reveal(aes_round);
    if aes_round(a, c) == aes_round(b, c) {
        lemma_xor_lanes_injective(
            mix_columns(shift_rows(sub_bytes(a))),
            mix_columns(shift_rows(sub_bytes(b))),
            c,
        );
        lemma_mix_columns_injective(shift_rows(sub_bytes(a)), shift_rows(sub_bytes(b)));
        lemma_shift_rows_injective(sub_bytes(a), sub_bytes(b));
        lemma_sub_bytes_injective(a, b);
    }
    if aes_round(c, a) == aes_round(c, b) {
        lemma_xor_lanes_injective(a, b, mix_columns(shift_rows(sub_bytes(c))));
    }
}

/// For a fixed round key, a last round maps distinct registers to distinct
/// registers; for a fixed register, distinct round keys give distinct
/// results.
pub proof fn lemma_aes_round_last_injective(a: Seq<u8>, b: Seq<u8>, c: Seq<u8>)
    requires
        a.len() == 16,
        b.len() == 16,
    ensures
        aes_round_last(a, c) == aes_round_last(b, c) ==> a == b,
        aes_round_last(c, a) == aes_round_last(c, b) ==> a == b,
{
    reveal(aes_round_last);
    if aes_round_last(a, c) == aes_round_last(b, c) {
        lemma_xor_lanes_injective(shift_rows(sub_bytes(a)), shift_rows(sub_bytes(b)), c);
        lemma_shift_rows_injective(sub_bytes(a), sub_bytes(b));
        lemma_sub_bytes_injective(a, b);
    }
    if aes_round_last(c, a) == aes_round_last(c, b) {
        lemma_xor_lanes_injective(a, b, shift_rows(sub_bytes(c)));
    }
}

fn mix_byte(a0: u8, a1: u8, a2: u8, a3: u8) -> (m: u8)
    ensures
        m == mix_column(a0, a1, a2, a3),
{
    let d0: u8 = (a0 << 1) ^ (if a0 & 0x80 != 0 {
        0x1bu8
    } else {
        0u8
    });
    let d1: u8 = (a1 << 1) ^ (if a1 & 0x80 != 0 {
        0x1bu8
    } else {
        0u8
    });
    proof {
        lemma_mul_small(a0);
        lemma_mul_small(a1);
    }
    d0 ^ (d1 ^ a1) ^ a2 ^ a3
}

fn substitute_and_shift(data: &State) -> (out: [u8; 16])
    ensures
        out@ == shift_rows(sub_bytes(data@)),
{
    let mut out = [0u8; 16];
    let mut i: usize = 0;
    while i < 16
        invariant
            i <= 16,
            forall|j: int| 0 <= j < i ==> out@[j] == sbox(data@[(j + 4 * (j % 4)) % 16]),
        decreases 16 - i,
    {
        let from: usize = (i + 4 * (i % 4)) % 16;
        out[i] = sub_byte(data.bytes.0[from]);
        i += 1;
    }
    assert(out@ =~= shift_rows(sub_bytes(data@)));
    out
}

fn mix(t: &[u8; 16]) -> (out: [u8; 16])
    ensures
        out@ == mix_columns(t@),
{
    let mut out = [0u8; 16];
    let mut i: usize = 0;
    while i < 16
        invariant
            i <= 16,
            forall|j: int|
                0 <= j < i ==> out@[j] == mix_column(
                    t@[j - j % 4 + j % 4],
                    t@[j - j % 4 + (j + 1) % 4],
                    t@[j - j % 4 + (j + 2) % 4],
                    t@[j - j % 4 + (j + 3) % 4],
                ),
        decreases 16 - i,
    {
        let c: usize = i - i % 4;
        out[i] = mix_byte(t[c + i % 4], t[c + (i + 1) % 4], t[c + (i + 2) % 4], t[c + (i + 3) % 4]);
        i += 1;
    }
    assert(out@ =~= mix_columns(t@));
    out
}

/// One full AES round of `data` under the round key `keys`.
pub fn aes_encrypt(data: State, keys: State) -> (out: State)
    ensures
        out@ == aes_round(data@, keys@),
{
    reveal(aes_round);
    let shifted = substitute_and_shift(&data);
    let mixed = mix(&shifted);
    xor(State { bytes: Bytes(mixed) }, keys)
}

/// One last AES round of `data` under the round key `keys`: as `aes_encrypt`,
/// without the column mixing.
pub fn aes_encrypt_last(data: State, keys: State) -> (out: State)
    ensures
        out@ == aes_round_last(data@, keys@),
{
    reveal(aes_round_last);
    let shifted = substitute_and_shift(&data);
    xor(State { bytes: Bytes(shifted) }, keys)
}

} // verus!
