//! The whitened state of the empty message, computed once and for all.

use vstd::prelude::*;
use crate::gxhash::aes::round::{
    aes_round,
    aes_round_last,
    mix_column,
    mix_columns,
    shift_rows,
    sub_bytes,
};
use crate::gxhash::aes::sbox::{lemma_mul_small, lemma_sbox_table, sbox, xtime};
use crate::gxhash::aes::{finalize_lanes, key_lanes, KEYS};
use crate::gxhash::common::{le_bytes_u32, xor_lanes, zero_lanes};
use crate::gxhash::low_u32;

verus! {

proof fn lemma_empty_digest_bits()
    by (bit_vector)
    ensures
        0xf2784542u32 as u8 == 0x42u8,
        (0xf2784542u32 >> 8) as u8 == 0x45u8,
        (0xf2784542u32 >> 16) as u8 == 0x78u8,
        (0xf2784542u32 >> 24) as u8 == 0xf2u8,
        0xb09d3e21u32 as u8 == 0x21u8,
        (0xb09d3e21u32 >> 8) as u8 == 0x3eu8,
        (0xb09d3e21u32 >> 16) as u8 == 0x9du8,
        (0xb09d3e21u32 >> 24) as u8 == 0xb0u8,
        0x89c222e5u32 as u8 == 0xe5u8,
        (0x89c222e5u32 >> 8) as u8 == 0x22u8,
        (0x89c222e5u32 >> 16) as u8 == 0xc2u8,
        (0x89c222e5u32 >> 24) as u8 == 0x89u8,
        0xfc3bc28eu32 as u8 == 0x8eu8,
        (0xfc3bc28eu32 >> 8) as u8 == 0xc2u8,
        (0xfc3bc28eu32 >> 16) as u8 == 0x3bu8,
        (0xfc3bc28eu32 >> 24) as u8 == 0xfcu8,
        0x03fce279u32 as u8 == 0x79u8,
        (0x03fce279u32 >> 8) as u8 == 0xe2u8,
        (0x03fce279u32 >> 16) as u8 == 0xfcu8,
        (0x03fce279u32 >> 24) as u8 == 0x03u8,
        0xcb6b2e9bu32 as u8 == 0x9bu8,
        (0xcb6b2e9bu32 >> 8) as u8 == 0x2eu8,
        (0xcb6b2e9bu32 >> 16) as u8 == 0x6bu8,
        (0xcb6b2e9bu32 >> 24) as u8 == 0xcbu8,
        0xb361dc58u32 as u8 == 0x58u8,
        (0xb361dc58u32 >> 8) as u8 == 0xdcu8,
        (0xb361dc58u32 >> 16) as u8 == 0x61u8,
        (0xb361dc58u32 >> 24) as u8 == 0xb3u8,
        0x39132bd9u32 as u8 == 0xd9u8,
        (0x39132bd9u32 >> 8) as u8 == 0x2bu8,
        (0x39132bd9u32 >> 16) as u8 == 0x13u8,
        (0x39132bd9u32 >> 24) as u8 == 0x39u8,
        0xd0012e32u32 as u8 == 0x32u8,
        (0xd0012e32u32 >> 8) as u8 == 0x2eu8,
        (0xd0012e32u32 >> 16) as u8 == 0x01u8,
        (0xd0012e32u32 >> 24) as u8 == 0xd0u8,
        0x689d2b7du32 as u8 == 0x7du8,
        (0x689d2b7du32 >> 8) as u8 == 0x2bu8,
        (0x689d2b7du32 >> 16) as u8 == 0x9du8,
        (0x689d2b7du32 >> 24) as u8 == 0x68u8,
        0x5544b1b7u32 as u8 == 0xb7u8,
        (0x5544b1b7u32 >> 8) as u8 == 0xb1u8,
        (0x5544b1b7u32 >> 16) as u8 == 0x44u8,
        (0x5544b1b7u32 >> 24) as u8 == 0x55u8,
        0xc78b122bu32 as u8 == 0x2bu8,
        (0xc78b122bu32 >> 8) as u8 == 0x12u8,
        (0xc78b122bu32 >> 16) as u8 == 0x8bu8,
        (0xc78b122bu32 >> 24) as u8 == 0xc7u8,
        xtime(0x63) ^ (xtime(0x63) ^ 0x63) ^ 0x63 ^ 0x63 == 0x63u8,
        0x63u8 ^ 0x42u8 == 0x21u8,
        0x63u8 ^ 0x45u8 == 0x26u8,
        0x63u8 ^ 0x78u8 == 0x1bu8,
        0x63u8 ^ 0xf2u8 == 0x91u8,
        0x63u8 ^ 0x21u8 == 0x42u8,
        0x63u8 ^ 0x3eu8 == 0x5du8,
        0x63u8 ^ 0x9du8 == 0xfeu8,
        0x63u8 ^ 0xb0u8 == 0xd3u8,
        0x63u8 ^ 0xe5u8 == 0x86u8,
        0x63u8 ^ 0x22u8 == 0x41u8,
        0x63u8 ^ 0xc2u8 == 0xa1u8,
        0x63u8 ^ 0x89u8 == 0xeau8,
        0x63u8 ^ 0x8eu8 == 0xedu8,
        0x63u8 ^ 0xc2u8 == 0xa1u8,
        0x63u8 ^ 0x3bu8 == 0x58u8,
        0x63u8 ^ 0xfcu8 == 0x9fu8,
        xtime(0xfd) ^ (xtime(0x4c) ^ 0x4c) ^ 0x32 ^ 0xdb == 0xdcu8,
        0xdcu8 ^ 0x79u8 == 0xa5u8,
        xtime(0x83) ^ (xtime(0x6a) ^ 0x6a) ^ 0x81 ^ 0x2c == 0x0eu8,
        0x0eu8 ^ 0x2eu8 == 0x20u8,
        xtime(0xaf) ^ (xtime(0x66) ^ 0x66) ^ 0x44 ^ 0x32 == 0x99u8,
        0x99u8 ^ 0x61u8 == 0xf8u8,
        xtime(0x87) ^ (xtime(0x55) ^ 0x55) ^ 0xf7 ^ 0xbb == 0xa6u8,
        0xa6u8 ^ 0x39u8 == 0x9fu8,
        0x06u8 ^ 0x32u8 == 0x34u8,
        0xb7u8 ^ 0x2eu8 == 0x99u8,
        0x41u8 ^ 0x01u8 == 0x40u8,
        0xdbu8 ^ 0xd0u8 == 0x0bu8,
        (0x34u8 as u32) | (0x99u8 as u32) << 8 | (0x40u8 as u32) << 16 | (0x0bu8 as u32) << 24 == 0x0b409934u32,
{
}

proof fn lemma_salt_bytes()
    ensures
        key_lanes(0)[0] == 0x42u8,
        key_lanes(0)[1] == 0x45u8,
        key_lanes(0)[2] == 0x78u8,
        key_lanes(0)[3] == 0xf2u8,
        key_lanes(0)[4] == 0x21u8,
        key_lanes(0)[5] == 0x3eu8,
        key_lanes(0)[6] == 0x9du8,
        key_lanes(0)[7] == 0xb0u8,
        key_lanes(0)[8] == 0xe5u8,
        key_lanes(0)[9] == 0x22u8,
        key_lanes(0)[10] == 0xc2u8,
        key_lanes(0)[11] == 0x89u8,
        key_lanes(0)[12] == 0x8eu8,
        key_lanes(0)[13] == 0xc2u8,
        key_lanes(0)[14] == 0x3bu8,
        key_lanes(0)[15] == 0xfcu8,
        key_lanes(1)[0] == 0x79u8,
        key_lanes(1)[5] == 0x2eu8,
        key_lanes(1)[10] == 0x61u8,
        key_lanes(1)[15] == 0x39u8,
        key_lanes(2)[0] == 0x32u8,
        key_lanes(2)[1] == 0x2eu8,
        key_lanes(2)[2] == 0x01u8,
        key_lanes(2)[3] == 0xd0u8,
{
    lemma_empty_digest_bits();
    let w0 = KEYS@.subrange(0, 4);
    let w1 = KEYS@.subrange(4, 8);
    let w2 = KEYS@.subrange(8, 12);
    assert(w0[0] == KEYS@[0]);
    assert(w0[1] == KEYS@[1]);
    assert(w0[2] == KEYS@[2]);
    assert(w0[3] == KEYS@[3]);
    assert(w1[0] == KEYS@[4]);
    assert(w1[1] == KEYS@[5]);
    assert(w1[2] == KEYS@[6]);
    assert(w1[3] == KEYS@[7]);
    assert(w2[0] == KEYS@[8]);
    assert(w2[1] == KEYS@[9]);
    assert(w2[2] == KEYS@[10]);
    assert(w2[3] == KEYS@[11]);
    assert(key_lanes(0)[0] == le_bytes_u32(w0[0])[0]);
    assert(key_lanes(0)[1] == le_bytes_u32(w0[0])[1]);
    assert(key_lanes(0)[2] == le_bytes_u32(w0[0])[2]);
    assert(key_lanes(0)[3] == le_bytes_u32(w0[0])[3]);
    assert(key_lanes(0)[4] == le_bytes_u32(w0[1])[0]);
    assert(key_lanes(0)[5] == le_bytes_u32(w0[1])[1]);
    assert(key_lanes(0)[6] == le_bytes_u32(w0[1])[2]);
    assert(key_lanes(0)[7] == le_bytes_u32(w0[1])[3]);
    assert(key_lanes(0)[8] == le_bytes_u32(w0[2])[0]);
    assert(key_lanes(0)[9] == le_bytes_u32(w0[2])[1]);
    assert(key_lanes(0)[10] == le_bytes_u32(w0[2])[2]);
    assert(key_lanes(0)[11] == le_bytes_u32(w0[2])[3]);
    assert(key_lanes(0)[12] == le_bytes_u32(w0[3])[0]);
    assert(key_lanes(0)[13] == le_bytes_u32(w0[3])[1]);
    assert(key_lanes(0)[14] == le_bytes_u32(w0[3])[2]);
    assert(key_lanes(0)[15] == le_bytes_u32(w0[3])[3]);
    assert(key_lanes(1)[0] == le_bytes_u32(w1[0])[0]);
    assert(key_lanes(1)[5] == le_bytes_u32(w1[1])[1]);
    assert(key_lanes(1)[10] == le_bytes_u32(w1[2])[2]);
    assert(key_lanes(1)[15] == le_bytes_u32(w1[3])[3]);
    assert(key_lanes(2)[0] == le_bytes_u32(w2[0])[0]);
    assert(key_lanes(2)[1] == le_bytes_u32(w2[0])[1]);
    assert(key_lanes(2)[2] == le_bytes_u32(w2[0])[2]);
    assert(key_lanes(2)[3] == le_bytes_u32(w2[0])[3]);
}

/// The first round on the zero register: every lane is substituted to
/// `0x63`, rows and columns of equal bytes stay as they are, and the first
/// salt key is added.
proof fn lemma_first_round()
    ensures
        aes_round(zero_lanes(), key_lanes(0))[0] == 0x21u8,
        aes_round(zero_lanes(), key_lanes(0))[1] == 0x26u8,
        aes_round(zero_lanes(), key_lanes(0))[2] == 0x1bu8,
        aes_round(zero_lanes(), key_lanes(0))[3] == 0x91u8,
        aes_round(zero_lanes(), key_lanes(0))[4] == 0x42u8,
        aes_round(zero_lanes(), key_lanes(0))[5] == 0x5du8,
        aes_round(zero_lanes(), key_lanes(0))[6] == 0xfeu8,
        aes_round(zero_lanes(), key_lanes(0))[7] == 0xd3u8,
        aes_round(zero_lanes(), key_lanes(0))[8] == 0x86u8,
        aes_round(zero_lanes(), key_lanes(0))[9] == 0x41u8,
        aes_round(zero_lanes(), key_lanes(0))[10] == 0xa1u8,
        aes_round(zero_lanes(), key_lanes(0))[11] == 0xeau8,
        aes_round(zero_lanes(), key_lanes(0))[12] == 0xedu8,
        aes_round(zero_lanes(), key_lanes(0))[13] == 0xa1u8,
        aes_round(zero_lanes(), key_lanes(0))[14] == 0x58u8,
        aes_round(zero_lanes(), key_lanes(0))[15] == 0x9fu8,
{
    reveal(aes_round);
    lemma_empty_digest_bits();
    lemma_salt_bytes();
    lemma_sbox_table(0);
    lemma_mul_small(0x63);
    let substituted = sub_bytes(zero_lanes());
    let shifted = shift_rows(substituted);
    let mixed = mix_columns(shifted);
    assert forall|i: int| 0 <= i < 16 implies substituted[i] == 0x63u8 by {
        assert(zero_lanes()[i] == 0u8);
    }
    assert forall|i: int| 0 <= i < 16 implies shifted[i] == 0x63u8 by {
        assert(shifted[i] == substituted[(i + 4 * (i % 4)) % 16]);
    }
    assert forall|i: int| 0 <= i < 16 implies mixed[i] == 0x63u8 by {
        assert(mixed[i] == mix_column(0x63u8, 0x63u8, 0x63u8, 0x63u8));
    }
    let out = xor_lanes(mixed, key_lanes(0));
    assert(out[0] == mixed[0] ^ key_lanes(0)[0]);
    assert(out[1] == mixed[1] ^ key_lanes(0)[1]);
    assert(out[2] == mixed[2] ^ key_lanes(0)[2]);
    assert(out[3] == mixed[3] ^ key_lanes(0)[3]);
    assert(out[4] == mixed[4] ^ key_lanes(0)[4]);
    assert(out[5] == mixed[5] ^ key_lanes(0)[5]);
    assert(out[6] == mixed[6] ^ key_lanes(0)[6]);
    assert(out[7] == mixed[7] ^ key_lanes(0)[7]);
    assert(out[8] == mixed[8] ^ key_lanes(0)[8]);
    assert(out[9] == mixed[9] ^ key_lanes(0)[9]);
    assert(out[10] == mixed[10] ^ key_lanes(0)[10]);
    assert(out[11] == mixed[11] ^ key_lanes(0)[11]);
    assert(out[12] == mixed[12] ^ key_lanes(0)[12]);
    assert(out[13] == mixed[13] ^ key_lanes(0)[13]);
    assert(out[14] == mixed[14] ^ key_lanes(0)[14]);
    assert(out[15] == mixed[15] ^ key_lanes(0)[15]);
}

/// The four lanes of the second round that the digest is cut from.
proof fn lemma_second_round(s1: Seq<u8>)
    requires
        s1 == aes_round(zero_lanes(), key_lanes(0)),
    ensures
        aes_round(s1, key_lanes(1))[0] == 0xa5u8,
        aes_round(s1, key_lanes(1))[5] == 0x20u8,
        aes_round(s1, key_lanes(1))[10] == 0xf8u8,
        aes_round(s1, key_lanes(1))[15] == 0x9fu8,
{
    reveal(aes_round);
    lemma_empty_digest_bits();
    lemma_salt_bytes();
    lemma_first_round();
    let substituted = sub_bytes(s1);
    let shifted = shift_rows(substituted);
    let mixed = mix_columns(shifted);
    lemma_sbox_table(0x21);
    assert(substituted[0] == sbox(s1[0]));
    lemma_sbox_table(0x26);
    assert(substituted[1] == sbox(s1[1]));
    lemma_sbox_table(0x1b);
    assert(substituted[2] == sbox(s1[2]));
    lemma_sbox_table(0x91);
    assert(substituted[3] == sbox(s1[3]));
    lemma_sbox_table(0x42);
    assert(substituted[4] == sbox(s1[4]));
    lemma_sbox_table(0x5d);
    assert(substituted[5] == sbox(s1[5]));
    lemma_sbox_table(0xfe);
    assert(substituted[6] == sbox(s1[6]));
    lemma_sbox_table(0xd3);
    assert(substituted[7] == sbox(s1[7]));
    lemma_sbox_table(0x86);
    assert(substituted[8] == sbox(s1[8]));
    lemma_sbox_table(0x41);
    assert(substituted[9] == sbox(s1[9]));
    lemma_sbox_table(0xa1);
    assert(substituted[10] == sbox(s1[10]));
    lemma_sbox_table(0xea);
    assert(substituted[11] == sbox(s1[11]));
    lemma_sbox_table(0xed);
    assert(substituted[12] == sbox(s1[12]));
    lemma_sbox_table(0xa1);
    assert(substituted[13] == sbox(s1[13]));
    lemma_sbox_table(0x58);
    assert(substituted[14] == sbox(s1[14]));
    lemma_sbox_table(0x9f);
    assert(substituted[15] == sbox(s1[15]));
    assert(shifted[0] == substituted[0]);
    assert(shifted[1] == substituted[5]);
    assert(shifted[2] == substituted[10]);
    assert(shifted[3] == substituted[15]);
    assert(shifted[4] == substituted[4]);
    assert(shifted[5] == substituted[9]);
    assert(shifted[6] == substituted[14]);
    assert(shifted[7] == substituted[3]);
    assert(shifted[8] == substituted[8]);
    assert(shifted[9] == substituted[13]);
    assert(shifted[10] == substituted[2]);
    assert(shifted[11] == substituted[7]);
    assert(shifted[12] == substituted[12]);
    assert(shifted[13] == substituted[1]);
    assert(shifted[14] == substituted[6]);
    assert(shifted[15] == substituted[11]);
    lemma_mul_small(0xfd);
    lemma_mul_small(0x4c);
    assert(mixed[0] == mix_column(shifted[0], shifted[1], shifted[2], shifted[3]));
    assert(mixed[0] == 0xdcu8);
    lemma_mul_small(0x83);
    lemma_mul_small(0x6a);
    assert(mixed[5] == mix_column(shifted[5], shifted[6], shifted[7], shifted[4]));
    assert(mixed[5] == 0x0eu8);
    lemma_mul_small(0xaf);
    lemma_mul_small(0x66);
    assert(mixed[10] == mix_column(shifted[10], shifted[11], shifted[8], shifted[9]));
    assert(mixed[10] == 0x99u8);
    lemma_mul_small(0x87);
    lemma_mul_small(0x55);
    assert(mixed[15] == mix_column(shifted[15], shifted[12], shifted[13], shifted[14]));
    assert(mixed[15] == 0xa6u8);
    let out = xor_lanes(mixed, key_lanes(1));
    assert(out[0] == mixed[0] ^ key_lanes(1)[0]);
    assert(out[5] == mixed[5] ^ key_lanes(1)[5]);
    assert(out[10] == mixed[10] ^ key_lanes(1)[10]);
    assert(out[15] == mixed[15] ^ key_lanes(1)[15]);
}

/// The first four lanes of the whitened zero register.
pub proof fn lemma_zero_register_whitened()
    ensures
        finalize_lanes(zero_lanes())[0] == 0x34u8,
        finalize_lanes(zero_lanes())[1] == 0x99u8,
        finalize_lanes(zero_lanes())[2] == 0x40u8,
        finalize_lanes(zero_lanes())[3] == 0x0bu8,
        low_u32(finalize_lanes(zero_lanes())) == 0x0b409934u32,
{
    reveal(aes_round_last);
    lemma_empty_digest_bits();
    lemma_salt_bytes();
    let s1 = aes_round(zero_lanes(), key_lanes(0));
    let s2 = aes_round(s1, key_lanes(1));
    lemma_second_round(s1);
    let substituted = sub_bytes(s2);
    let shifted = shift_rows(substituted);
    lemma_sbox_table(0xa5);
    assert(substituted[0] == sbox(s2[0]));
    lemma_sbox_table(0x20);
    assert(substituted[5] == sbox(s2[5]));
    lemma_sbox_table(0xf8);
    assert(substituted[10] == sbox(s2[10]));
    lemma_sbox_table(0x9f);
    assert(substituted[15] == sbox(s2[15]));
    assert(shifted[0] == substituted[0]);
    assert(shifted[1] == substituted[5]);
    assert(shifted[2] == substituted[10]);
    assert(shifted[3] == substituted[15]);
    let out = xor_lanes(shifted, key_lanes(2));
    assert(out[0] == shifted[0] ^ key_lanes(2)[0]);
    assert(out[1] == shifted[1] ^ key_lanes(2)[1]);
    assert(out[2] == shifted[2] ^ key_lanes(2)[2]);
    assert(out[3] == shifted[3] ^ key_lanes(2)[3]);
}

} // verus!
