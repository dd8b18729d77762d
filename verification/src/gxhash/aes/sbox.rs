//! The AES substitution box, defined from arithmetic in the field GF(2^8)
//! and served at run time from a table that is proved equal to the definition.

use vstd::prelude::*;

verus! {

/// Multiplication by `x` in GF(2^8) modulo `x^8 + x^4 + x^3 + x + 1`.
pub open spec fn xtime(a: u8) -> u8 {
    (a << 1) ^ (if a & 0x80 != 0 {
        0x1bu8
    } else {
        0u8
    })
}

/// Product of two elements of GF(2^8): the sum, over the set bits of `b`, of
/// `a` times the matching power of `x`.
#[verifier::opaque]
pub open spec fn gf_mul(a: u8, b: u8) -> u8 {
    let a1 = xtime(a);
    let a2 = xtime(a1);
    let a3 = xtime(a2);
    let a4 = xtime(a3);
    let a5 = xtime(a4);
    let a6 = xtime(a5);
    let a7 = xtime(a6);
    (if b & 0x01 != 0 { a } else { 0u8 }) ^ (if b & 0x02 != 0 { a1 } else { 0u8 }) ^ (if b & 0x04 != 0 {
        a2
    } else {
        0u8
    }) ^ (if b & 0x08 != 0 { a3 } else { 0u8 }) ^ (if b & 0x10 != 0 { a4 } else { 0u8 }) ^ (if b
        & 0x20 != 0 { a5 } else { 0u8 }) ^ (if b & 0x40 != 0 { a6 } else { 0u8 }) ^ (if b & 0x80 != 0 {
        a7
    } else {
        0u8
    })
}

/// The 254th power in GF(2^8): the multiplicative inverse of every non-zero
/// element, and zero for zero.
#[verifier::opaque]
pub open spec fn gf_inv(x: u8) -> u8 {
    let x2 = gf_mul(x, x);
    let x4 = gf_mul(x2, x2);
    let x8 = gf_mul(x4, x4);
    let x16 = gf_mul(x8, x8);
    let x32 = gf_mul(x16, x16);
    let x64 = gf_mul(x32, x32);
    let x128 = gf_mul(x64, x64);
    gf_mul(gf_mul(gf_mul(gf_mul(gf_mul(gf_mul(x128, x64), x32), x16), x8), x4), x2)
}

/// The affine map that follows the inversion: each bit is the sum of five bits
/// of the argument and one bit of the constant `0x63`.
pub open spec fn affine(b: u8) -> u8 {
    b ^ (b << 1 | b >> 7) ^ (b << 2 | b >> 6) ^ (b << 3 | b >> 5) ^ (b << 4 | b >> 4) ^ 0x63u8
}

/// The substitution box: inversion in GF(2^8), then the affine map.
#[verifier::opaque]
pub open spec fn sbox(x: u8) -> u8 {
    affine(gf_inv(x))
}

/// The inverse of the affine map.
pub open spec fn affine_inverse(b: u8) -> u8 {
    (b << 1 | b >> 7) ^ (b << 3 | b >> 5) ^ (b << 6 | b >> 2) ^ 0x05u8
}

/// The inverse substitution box: the affine map undone, then inversion in
/// GF(2^8).
#[verifier::opaque]
pub open spec fn inv_sbox(y: u8) -> u8 {
    gf_inv(affine_inverse(y))
}

/// The substitution box as a table, indexed by the byte to replace.
pub const SBOX: [u8; 256] = [
    0x63, 0x7c, 0x77, 0x7b, 0xf2, 0x6b, 0x6f, 0xc5, 0x30, 0x01, 0x67, 0x2b, 0xfe, 0xd7, 0xab, 0x76,
    0xca, 0x82, 0xc9, 0x7d, 0xfa, 0x59, 0x47, 0xf0, 0xad, 0xd4, 0xa2, 0xaf, 0x9c, 0xa4, 0x72, 0xc0,
    0xb7, 0xfd, 0x93, 0x26, 0x36, 0x3f, 0xf7, 0xcc, 0x34, 0xa5, 0xe5, 0xf1, 0x71, 0xd8, 0x31, 0x15,
    0x04, 0xc7, 0x23, 0xc3, 0x18, 0x96, 0x05, 0x9a, 0x07, 0x12, 0x80, 0xe2, 0xeb, 0x27, 0xb2, 0x75,
    0x09, 0x83, 0x2c, 0x1a, 0x1b, 0x6e, 0x5a, 0xa0, 0x52, 0x3b, 0xd6, 0xb3, 0x29, 0xe3, 0x2f, 0x84,
    0x53, 0xd1, 0x00, 0xed, 0x20, 0xfc, 0xb1, 0x5b, 0x6a, 0xcb, 0xbe, 0x39, 0x4a, 0x4c, 0x58, 0xcf,
    0xd0, 0xef, 0xaa, 0xfb, 0x43, 0x4d, 0x33, 0x85, 0x45, 0xf9, 0x02, 0x7f, 0x50, 0x3c, 0x9f, 0xa8,
    0x51, 0xa3, 0x40, 0x8f, 0x92, 0x9d, 0x38, 0xf5, 0xbc, 0xb6, 0xda, 0x21, 0x10, 0xff, 0xf3, 0xd2,
    0xcd, 0x0c, 0x13, 0xec, 0x5f, 0x97, 0x44, 0x17, 0xc4, 0xa7, 0x7e, 0x3d, 0x64, 0x5d, 0x19, 0x73,
    0x60, 0x81, 0x4f, 0xdc, 0x22, 0x2a, 0x90, 0x88, 0x46, 0xee, 0xb8, 0x14, 0xde, 0x5e, 0x0b, 0xdb,
    0xe0, 0x32, 0x3a, 0x0a, 0x49, 0x06, 0x24, 0x5c, 0xc2, 0xd3, 0xac, 0x62, 0x91, 0x95, 0xe4, 0x79,
    0xe7, 0xc8, 0x37, 0x6d, 0x8d, 0xd5, 0x4e, 0xa9, 0x6c, 0x56, 0xf4, 0xea, 0x65, 0x7a, 0xae, 0x08,
    0xba, 0x78, 0x25, 0x2e, 0x1c, 0xa6, 0xb4, 0xc6, 0xe8, 0xdd, 0x74, 0x1f, 0x4b, 0xbd, 0x8b, 0x8a,
    0x70, 0x3e, 0xb5, 0x66, 0x48, 0x03, 0xf6, 0x0e, 0x61, 0x35, 0x57, 0xb9, 0x86, 0xc1, 0x1d, 0x9e,
    0xe1, 0xf8, 0x98, 0x11, 0x69, 0xd9, 0x8e, 0x94, 0x9b, 0x1e, 0x87, 0xe9, 0xce, 0x55, 0x28, 0xdf,
    0x8c, 0xa1, 0x89, 0x0d, 0xbf, 0xe6, 0x42, 0x68, 0x41, 0x99, 0x2d, 0x0f, 0xb0, 0x54, 0xbb, 0x16,
];

proof fn lemma_sbox_values()
    by (bit_vector)
    ensures
        sbox(0x00) == 0x63,
        sbox(0x01) == 0x7c,
        sbox(0x02) == 0x77,
        sbox(0x03) == 0x7b,
        sbox(0x04) == 0xf2,
        sbox(0x05) == 0x6b,
        sbox(0x06) == 0x6f,
        sbox(0x07) == 0xc5,
        sbox(0x08) == 0x30,
        sbox(0x09) == 0x01,
        sbox(0x0a) == 0x67,
        sbox(0x0b) == 0x2b,
        sbox(0x0c) == 0xfe,
        sbox(0x0d) == 0xd7,
        sbox(0x0e) == 0xab,
        sbox(0x0f) == 0x76,
        sbox(0x10) == 0xca,
        sbox(0x11) == 0x82,
        sbox(0x12) == 0xc9,
        sbox(0x13) == 0x7d,
        sbox(0x14) == 0xfa,
        sbox(0x15) == 0x59,
        sbox(0x16) == 0x47,
        sbox(0x17) == 0xf0,
        sbox(0x18) == 0xad,
        sbox(0x19) == 0xd4,
        sbox(0x1a) == 0xa2,
        sbox(0x1b) == 0xaf,
        sbox(0x1c) == 0x9c,
        sbox(0x1d) == 0xa4,
        sbox(0x1e) == 0x72,
        sbox(0x1f) == 0xc0,
        sbox(0x20) == 0xb7,
        sbox(0x21) == 0xfd,
        sbox(0x22) == 0x93,
        sbox(0x23) == 0x26,
        sbox(0x24) == 0x36,
        sbox(0x25) == 0x3f,
        sbox(0x26) == 0xf7,
        sbox(0x27) == 0xcc,
        sbox(0x28) == 0x34,
        sbox(0x29) == 0xa5,
        sbox(0x2a) == 0xe5,
        sbox(0x2b) == 0xf1,
        sbox(0x2c) == 0x71,
        sbox(0x2d) == 0xd8,
        sbox(0x2e) == 0x31,
        sbox(0x2f) == 0x15,
        sbox(0x30) == 0x04,
        sbox(0x31) == 0xc7,
        sbox(0x32) == 0x23,
        sbox(0x33) == 0xc3,
        sbox(0x34) == 0x18,
        sbox(0x35) == 0x96,
        sbox(0x36) == 0x05,
        sbox(0x37) == 0x9a,
        sbox(0x38) == 0x07,
        sbox(0x39) == 0x12,
        sbox(0x3a) == 0x80,
        sbox(0x3b) == 0xe2,
        sbox(0x3c) == 0xeb,
        sbox(0x3d) == 0x27,
        sbox(0x3e) == 0xb2,
        sbox(0x3f) == 0x75,
        sbox(0x40) == 0x09,
        sbox(0x41) == 0x83,
        sbox(0x42) == 0x2c,
        sbox(0x43) == 0x1a,
        sbox(0x44) == 0x1b,
        sbox(0x45) == 0x6e,
        sbox(0x46) == 0x5a,
        sbox(0x47) == 0xa0,
        sbox(0x48) == 0x52,
        sbox(0x49) == 0x3b,
        sbox(0x4a) == 0xd6,
        sbox(0x4b) == 0xb3,
        sbox(0x4c) == 0x29,
        sbox(0x4d) == 0xe3,
        sbox(0x4e) == 0x2f,
        sbox(0x4f) == 0x84,
        sbox(0x50) == 0x53,
        sbox(0x51) == 0xd1,
        sbox(0x52) == 0x00,
        sbox(0x53) == 0xed,
        sbox(0x54) == 0x20,
        sbox(0x55) == 0xfc,
        sbox(0x56) == 0xb1,
        sbox(0x57) == 0x5b,
        sbox(0x58) == 0x6a,
        sbox(0x59) == 0xcb,
        sbox(0x5a) == 0xbe,
        sbox(0x5b) == 0x39,
        sbox(0x5c) == 0x4a,
        sbox(0x5d) == 0x4c,
        sbox(0x5e) == 0x58,
        sbox(0x5f) == 0xcf,
        sbox(0x60) == 0xd0,
        sbox(0x61) == 0xef,
        sbox(0x62) == 0xaa,
        sbox(0x63) == 0xfb,
        sbox(0x64) == 0x43,
        sbox(0x65) == 0x4d,
        sbox(0x66) == 0x33,
        sbox(0x67) == 0x85,
        sbox(0x68) == 0x45,
        sbox(0x69) == 0xf9,
        sbox(0x6a) == 0x02,
        sbox(0x6b) == 0x7f,
        sbox(0x6c) == 0x50,
        sbox(0x6d) == 0x3c,
        sbox(0x6e) == 0x9f,
        sbox(0x6f) == 0xa8,
        sbox(0x70) == 0x51,
        sbox(0x71) == 0xa3,
        sbox(0x72) == 0x40,
        sbox(0x73) == 0x8f,
        sbox(0x74) == 0x92,
        sbox(0x75) == 0x9d,
        sbox(0x76) == 0x38,
        sbox(0x77) == 0xf5,
        sbox(0x78) == 0xbc,
        sbox(0x79) == 0xb6,
        sbox(0x7a) == 0xda,
        sbox(0x7b) == 0x21,
        sbox(0x7c) == 0x10,
        sbox(0x7d) == 0xff,
        sbox(0x7e) == 0xf3,
        sbox(0x7f) == 0xd2,
        sbox(0x80) == 0xcd,
        sbox(0x81) == 0x0c,
        sbox(0x82) == 0x13,
        sbox(0x83) == 0xec,
        sbox(0x84) == 0x5f,
        sbox(0x85) == 0x97,
        sbox(0x86) == 0x44,
        sbox(0x87) == 0x17,
        sbox(0x88) == 0xc4,
        sbox(0x89) == 0xa7,
        sbox(0x8a) == 0x7e,
        sbox(0x8b) == 0x3d,
        sbox(0x8c) == 0x64,
        sbox(0x8d) == 0x5d,
        sbox(0x8e) == 0x19,
        sbox(0x8f) == 0x73,
        sbox(0x90) == 0x60,
        sbox(0x91) == 0x81,
        sbox(0x92) == 0x4f,
        sbox(0x93) == 0xdc,
        sbox(0x94) == 0x22,
        sbox(0x95) == 0x2a,
        sbox(0x96) == 0x90,
        sbox(0x97) == 0x88,
        sbox(0x98) == 0x46,
        sbox(0x99) == 0xee,
        sbox(0x9a) == 0xb8,
        sbox(0x9b) == 0x14,
        sbox(0x9c) == 0xde,
        sbox(0x9d) == 0x5e,
        sbox(0x9e) == 0x0b,
        sbox(0x9f) == 0xdb,
        sbox(0xa0) == 0xe0,
        sbox(0xa1) == 0x32,
        sbox(0xa2) == 0x3a,
        sbox(0xa3) == 0x0a,
        sbox(0xa4) == 0x49,
        sbox(0xa5) == 0x06,
        sbox(0xa6) == 0x24,
        sbox(0xa7) == 0x5c,
        sbox(0xa8) == 0xc2,
        sbox(0xa9) == 0xd3,
        sbox(0xaa) == 0xac,
        sbox(0xab) == 0x62,
        sbox(0xac) == 0x91,
        sbox(0xad) == 0x95,
        sbox(0xae) == 0xe4,
        sbox(0xaf) == 0x79,
        sbox(0xb0) == 0xe7,
        sbox(0xb1) == 0xc8,
        sbox(0xb2) == 0x37,
        sbox(0xb3) == 0x6d,
        sbox(0xb4) == 0x8d,
        sbox(0xb5) == 0xd5,
        sbox(0xb6) == 0x4e,
        sbox(0xb7) == 0xa9,
        sbox(0xb8) == 0x6c,
        sbox(0xb9) == 0x56,
        sbox(0xba) == 0xf4,
        sbox(0xbb) == 0xea,
        sbox(0xbc) == 0x65,
        sbox(0xbd) == 0x7a,
        sbox(0xbe) == 0xae,
        sbox(0xbf) == 0x08,
        sbox(0xc0) == 0xba,
        sbox(0xc1) == 0x78,
        sbox(0xc2) == 0x25,
        sbox(0xc3) == 0x2e,
        sbox(0xc4) == 0x1c,
        sbox(0xc5) == 0xa6,
        sbox(0xc6) == 0xb4,
        sbox(0xc7) == 0xc6,
        sbox(0xc8) == 0xe8,
        sbox(0xc9) == 0xdd,
        sbox(0xca) == 0x74,
        sbox(0xcb) == 0x1f,
        sbox(0xcc) == 0x4b,
        sbox(0xcd) == 0xbd,
        sbox(0xce) == 0x8b,
        sbox(0xcf) == 0x8a,
        sbox(0xd0) == 0x70,
        sbox(0xd1) == 0x3e,
        sbox(0xd2) == 0xb5,
        sbox(0xd3) == 0x66,
        sbox(0xd4) == 0x48,
        sbox(0xd5) == 0x03,
        sbox(0xd6) == 0xf6,
        sbox(0xd7) == 0x0e,
        sbox(0xd8) == 0x61,
        sbox(0xd9) == 0x35,
        sbox(0xda) == 0x57,
        sbox(0xdb) == 0xb9,
        sbox(0xdc) == 0x86,
        sbox(0xdd) == 0xc1,
        sbox(0xde) == 0x1d,
        sbox(0xdf) == 0x9e,
        sbox(0xe0) == 0xe1,
        sbox(0xe1) == 0xf8,
        sbox(0xe2) == 0x98,
        sbox(0xe3) == 0x11,
        sbox(0xe4) == 0x69,
        sbox(0xe5) == 0xd9,
        sbox(0xe6) == 0x8e,
        sbox(0xe7) == 0x94,
        sbox(0xe8) == 0x9b,
        sbox(0xe9) == 0x1e,
        sbox(0xea) == 0x87,
        sbox(0xeb) == 0xe9,
        sbox(0xec) == 0xce,
        sbox(0xed) == 0x55,
        sbox(0xee) == 0x28,
        sbox(0xef) == 0xdf,
        sbox(0xf0) == 0x8c,
        sbox(0xf1) == 0xa1,
        sbox(0xf2) == 0x89,
        sbox(0xf3) == 0x0d,
        sbox(0xf4) == 0xbf,
        sbox(0xf5) == 0xe6,
        sbox(0xf6) == 0x42,
        sbox(0xf7) == 0x68,
        sbox(0xf8) == 0x41,
        sbox(0xf9) == 0x99,
        sbox(0xfa) == 0x2d,
        sbox(0xfb) == 0x0f,
        sbox(0xfc) == 0xb0,
        sbox(0xfd) == 0x54,
        sbox(0xfe) == 0xbb,
        sbox(0xff) == 0x16,
{
}

proof fn lemma_inverse_values()
    by (bit_vector)
    ensures
        gf_inv(0x00) == 0,
        gf_mul(0x01, gf_inv(0x01)) == 1,
        gf_mul(0x02, gf_inv(0x02)) == 1,
        gf_mul(0x03, gf_inv(0x03)) == 1,
        gf_mul(0x04, gf_inv(0x04)) == 1,
        gf_mul(0x05, gf_inv(0x05)) == 1,
        gf_mul(0x06, gf_inv(0x06)) == 1,
        gf_mul(0x07, gf_inv(0x07)) == 1,
        gf_mul(0x08, gf_inv(0x08)) == 1,
        gf_mul(0x09, gf_inv(0x09)) == 1,
        gf_mul(0x0a, gf_inv(0x0a)) == 1,
        gf_mul(0x0b, gf_inv(0x0b)) == 1,
        gf_mul(0x0c, gf_inv(0x0c)) == 1,
        gf_mul(0x0d, gf_inv(0x0d)) == 1,
        gf_mul(0x0e, gf_inv(0x0e)) == 1,
        gf_mul(0x0f, gf_inv(0x0f)) == 1,
        gf_mul(0x10, gf_inv(0x10)) == 1,
        gf_mul(0x11, gf_inv(0x11)) == 1,
        gf_mul(0x12, gf_inv(0x12)) == 1,
        gf_mul(0x13, gf_inv(0x13)) == 1,
        gf_mul(0x14, gf_inv(0x14)) == 1,
        gf_mul(0x15, gf_inv(0x15)) == 1,
        gf_mul(0x16, gf_inv(0x16)) == 1,
        gf_mul(0x17, gf_inv(0x17)) == 1,
        gf_mul(0x18, gf_inv(0x18)) == 1,
        gf_mul(0x19, gf_inv(0x19)) == 1,
        gf_mul(0x1a, gf_inv(0x1a)) == 1,
        gf_mul(0x1b, gf_inv(0x1b)) == 1,
        gf_mul(0x1c, gf_inv(0x1c)) == 1,
        gf_mul(0x1d, gf_inv(0x1d)) == 1,
        gf_mul(0x1e, gf_inv(0x1e)) == 1,
        gf_mul(0x1f, gf_inv(0x1f)) == 1,
        gf_mul(0x20, gf_inv(0x20)) == 1,
        gf_mul(0x21, gf_inv(0x21)) == 1,
        gf_mul(0x22, gf_inv(0x22)) == 1,
        gf_mul(0x23, gf_inv(0x23)) == 1,
        gf_mul(0x24, gf_inv(0x24)) == 1,
        gf_mul(0x25, gf_inv(0x25)) == 1,
        gf_mul(0x26, gf_inv(0x26)) == 1,
        gf_mul(0x27, gf_inv(0x27)) == 1,
        gf_mul(0x28, gf_inv(0x28)) == 1,
        gf_mul(0x29, gf_inv(0x29)) == 1,
        gf_mul(0x2a, gf_inv(0x2a)) == 1,
        gf_mul(0x2b, gf_inv(0x2b)) == 1,
        gf_mul(0x2c, gf_inv(0x2c)) == 1,
        gf_mul(0x2d, gf_inv(0x2d)) == 1,
        gf_mul(0x2e, gf_inv(0x2e)) == 1,
        gf_mul(0x2f, gf_inv(0x2f)) == 1,
        gf_mul(0x30, gf_inv(0x30)) == 1,
        gf_mul(0x31, gf_inv(0x31)) == 1,
        gf_mul(0x32, gf_inv(0x32)) == 1,
        gf_mul(0x33, gf_inv(0x33)) == 1,
        gf_mul(0x34, gf_inv(0x34)) == 1,
        gf_mul(0x35, gf_inv(0x35)) == 1,
        gf_mul(0x36, gf_inv(0x36)) == 1,
        gf_mul(0x37, gf_inv(0x37)) == 1,
        gf_mul(0x38, gf_inv(0x38)) == 1,
        gf_mul(0x39, gf_inv(0x39)) == 1,
        gf_mul(0x3a, gf_inv(0x3a)) == 1,
        gf_mul(0x3b, gf_inv(0x3b)) == 1,
        gf_mul(0x3c, gf_inv(0x3c)) == 1,
        gf_mul(0x3d, gf_inv(0x3d)) == 1,
        gf_mul(0x3e, gf_inv(0x3e)) == 1,
        gf_mul(0x3f, gf_inv(0x3f)) == 1,
        gf_mul(0x40, gf_inv(0x40)) == 1,
        gf_mul(0x41, gf_inv(0x41)) == 1,
        gf_mul(0x42, gf_inv(0x42)) == 1,
        gf_mul(0x43, gf_inv(0x43)) == 1,
        gf_mul(0x44, gf_inv(0x44)) == 1,
        gf_mul(0x45, gf_inv(0x45)) == 1,
        gf_mul(0x46, gf_inv(0x46)) == 1,
        gf_mul(0x47, gf_inv(0x47)) == 1,
        gf_mul(0x48, gf_inv(0x48)) == 1,
        gf_mul(0x49, gf_inv(0x49)) == 1,
        gf_mul(0x4a, gf_inv(0x4a)) == 1,
        gf_mul(0x4b, gf_inv(0x4b)) == 1,
        gf_mul(0x4c, gf_inv(0x4c)) == 1,
        gf_mul(0x4d, gf_inv(0x4d)) == 1,
        gf_mul(0x4e, gf_inv(0x4e)) == 1,
        gf_mul(0x4f, gf_inv(0x4f)) == 1,
        gf_mul(0x50, gf_inv(0x50)) == 1,
        gf_mul(0x51, gf_inv(0x51)) == 1,
        gf_mul(0x52, gf_inv(0x52)) == 1,
        gf_mul(0x53, gf_inv(0x53)) == 1,
        gf_mul(0x54, gf_inv(0x54)) == 1,
        gf_mul(0x55, gf_inv(0x55)) == 1,
        gf_mul(0x56, gf_inv(0x56)) == 1,
        gf_mul(0x57, gf_inv(0x57)) == 1,
        gf_mul(0x58, gf_inv(0x58)) == 1,
        gf_mul(0x59, gf_inv(0x59)) == 1,
        gf_mul(0x5a, gf_inv(0x5a)) == 1,
        gf_mul(0x5b, gf_inv(0x5b)) == 1,
        gf_mul(0x5c, gf_inv(0x5c)) == 1,
        gf_mul(0x5d, gf_inv(0x5d)) == 1,
        gf_mul(0x5e, gf_inv(0x5e)) == 1,
        gf_mul(0x5f, gf_inv(0x5f)) == 1,
        gf_mul(0x60, gf_inv(0x60)) == 1,
        gf_mul(0x61, gf_inv(0x61)) == 1,
        gf_mul(0x62, gf_inv(0x62)) == 1,
        gf_mul(0x63, gf_inv(0x63)) == 1,
        gf_mul(0x64, gf_inv(0x64)) == 1,
        gf_mul(0x65, gf_inv(0x65)) == 1,
        gf_mul(0x66, gf_inv(0x66)) == 1,
        gf_mul(0x67, gf_inv(0x67)) == 1,
        gf_mul(0x68, gf_inv(0x68)) == 1,
        gf_mul(0x69, gf_inv(0x69)) == 1,
        gf_mul(0x6a, gf_inv(0x6a)) == 1,
        gf_mul(0x6b, gf_inv(0x6b)) == 1,
        gf_mul(0x6c, gf_inv(0x6c)) == 1,
        gf_mul(0x6d, gf_inv(0x6d)) == 1,
        gf_mul(0x6e, gf_inv(0x6e)) == 1,
        gf_mul(0x6f, gf_inv(0x6f)) == 1,
        gf_mul(0x70, gf_inv(0x70)) == 1,
        gf_mul(0x71, gf_inv(0x71)) == 1,
        gf_mul(0x72, gf_inv(0x72)) == 1,
        gf_mul(0x73, gf_inv(0x73)) == 1,
        gf_mul(0x74, gf_inv(0x74)) == 1,
        gf_mul(0x75, gf_inv(0x75)) == 1,
        gf_mul(0x76, gf_inv(0x76)) == 1,
        gf_mul(0x77, gf_inv(0x77)) == 1,
        gf_mul(0x78, gf_inv(0x78)) == 1,
        gf_mul(0x79, gf_inv(0x79)) == 1,
        gf_mul(0x7a, gf_inv(0x7a)) == 1,
        gf_mul(0x7b, gf_inv(0x7b)) == 1,
        gf_mul(0x7c, gf_inv(0x7c)) == 1,
        gf_mul(0x7d, gf_inv(0x7d)) == 1,
        gf_mul(0x7e, gf_inv(0x7e)) == 1,
        gf_mul(0x7f, gf_inv(0x7f)) == 1,
        gf_mul(0x80, gf_inv(0x80)) == 1,
        gf_mul(0x81, gf_inv(0x81)) == 1,
        gf_mul(0x82, gf_inv(0x82)) == 1,
        gf_mul(0x83, gf_inv(0x83)) == 1,
        gf_mul(0x84, gf_inv(0x84)) == 1,
        gf_mul(0x85, gf_inv(0x85)) == 1,
        gf_mul(0x86, gf_inv(0x86)) == 1,
        gf_mul(0x87, gf_inv(0x87)) == 1,
        gf_mul(0x88, gf_inv(0x88)) == 1,
        gf_mul(0x89, gf_inv(0x89)) == 1,
        gf_mul(0x8a, gf_inv(0x8a)) == 1,
        gf_mul(0x8b, gf_inv(0x8b)) == 1,
        gf_mul(0x8c, gf_inv(0x8c)) == 1,
        gf_mul(0x8d, gf_inv(0x8d)) == 1,
        gf_mul(0x8e, gf_inv(0x8e)) == 1,
        gf_mul(0x8f, gf_inv(0x8f)) == 1,
        gf_mul(0x90, gf_inv(0x90)) == 1,
        gf_mul(0x91, gf_inv(0x91)) == 1,
        gf_mul(0x92, gf_inv(0x92)) == 1,
        gf_mul(0x93, gf_inv(0x93)) == 1,
        gf_mul(0x94, gf_inv(0x94)) == 1,
        gf_mul(0x95, gf_inv(0x95)) == 1,
        gf_mul(0x96, gf_inv(0x96)) == 1,
        gf_mul(0x97, gf_inv(0x97)) == 1,
        gf_mul(0x98, gf_inv(0x98)) == 1,
        gf_mul(0x99, gf_inv(0x99)) == 1,
        gf_mul(0x9a, gf_inv(0x9a)) == 1,
        gf_mul(0x9b, gf_inv(0x9b)) == 1,
        gf_mul(0x9c, gf_inv(0x9c)) == 1,
        gf_mul(0x9d, gf_inv(0x9d)) == 1,
        gf_mul(0x9e, gf_inv(0x9e)) == 1,
        gf_mul(0x9f, gf_inv(0x9f)) == 1,
        gf_mul(0xa0, gf_inv(0xa0)) == 1,
        gf_mul(0xa1, gf_inv(0xa1)) == 1,
        gf_mul(0xa2, gf_inv(0xa2)) == 1,
        gf_mul(0xa3, gf_inv(0xa3)) == 1,
        gf_mul(0xa4, gf_inv(0xa4)) == 1,
        gf_mul(0xa5, gf_inv(0xa5)) == 1,
        gf_mul(0xa6, gf_inv(0xa6)) == 1,
        gf_mul(0xa7, gf_inv(0xa7)) == 1,
        gf_mul(0xa8, gf_inv(0xa8)) == 1,
        gf_mul(0xa9, gf_inv(0xa9)) == 1,
        gf_mul(0xaa, gf_inv(0xaa)) == 1,
        gf_mul(0xab, gf_inv(0xab)) == 1,
        gf_mul(0xac, gf_inv(0xac)) == 1,
        gf_mul(0xad, gf_inv(0xad)) == 1,
        gf_mul(0xae, gf_inv(0xae)) == 1,
        gf_mul(0xaf, gf_inv(0xaf)) == 1,
        gf_mul(0xb0, gf_inv(0xb0)) == 1,
        gf_mul(0xb1, gf_inv(0xb1)) == 1,
        gf_mul(0xb2, gf_inv(0xb2)) == 1,
        gf_mul(0xb3, gf_inv(0xb3)) == 1,
        gf_mul(0xb4, gf_inv(0xb4)) == 1,
        gf_mul(0xb5, gf_inv(0xb5)) == 1,
        gf_mul(0xb6, gf_inv(0xb6)) == 1,
        gf_mul(0xb7, gf_inv(0xb7)) == 1,
        gf_mul(0xb8, gf_inv(0xb8)) == 1,
        gf_mul(0xb9, gf_inv(0xb9)) == 1,
        gf_mul(0xba, gf_inv(0xba)) == 1,
        gf_mul(0xbb, gf_inv(0xbb)) == 1,
        gf_mul(0xbc, gf_inv(0xbc)) == 1,
        gf_mul(0xbd, gf_inv(0xbd)) == 1,
        gf_mul(0xbe, gf_inv(0xbe)) == 1,
        gf_mul(0xbf, gf_inv(0xbf)) == 1,
        gf_mul(0xc0, gf_inv(0xc0)) == 1,
        gf_mul(0xc1, gf_inv(0xc1)) == 1,
        gf_mul(0xc2, gf_inv(0xc2)) == 1,
        gf_mul(0xc3, gf_inv(0xc3)) == 1,
        gf_mul(0xc4, gf_inv(0xc4)) == 1,
        gf_mul(0xc5, gf_inv(0xc5)) == 1,
        gf_mul(0xc6, gf_inv(0xc6)) == 1,
        gf_mul(0xc7, gf_inv(0xc7)) == 1,
        gf_mul(0xc8, gf_inv(0xc8)) == 1,
        gf_mul(0xc9, gf_inv(0xc9)) == 1,
        gf_mul(0xca, gf_inv(0xca)) == 1,
        gf_mul(0xcb, gf_inv(0xcb)) == 1,
        gf_mul(0xcc, gf_inv(0xcc)) == 1,
        gf_mul(0xcd, gf_inv(0xcd)) == 1,
        gf_mul(0xce, gf_inv(0xce)) == 1,
        gf_mul(0xcf, gf_inv(0xcf)) == 1,
        gf_mul(0xd0, gf_inv(0xd0)) == 1,
        gf_mul(0xd1, gf_inv(0xd1)) == 1,
        gf_mul(0xd2, gf_inv(0xd2)) == 1,
        gf_mul(0xd3, gf_inv(0xd3)) == 1,
        gf_mul(0xd4, gf_inv(0xd4)) == 1,
        gf_mul(0xd5, gf_inv(0xd5)) == 1,
        gf_mul(0xd6, gf_inv(0xd6)) == 1,
        gf_mul(0xd7, gf_inv(0xd7)) == 1,
        gf_mul(0xd8, gf_inv(0xd8)) == 1,
        gf_mul(0xd9, gf_inv(0xd9)) == 1,
        gf_mul(0xda, gf_inv(0xda)) == 1,
        gf_mul(0xdb, gf_inv(0xdb)) == 1,
        gf_mul(0xdc, gf_inv(0xdc)) == 1,
        gf_mul(0xdd, gf_inv(0xdd)) == 1,
        gf_mul(0xde, gf_inv(0xde)) == 1,
        gf_mul(0xdf, gf_inv(0xdf)) == 1,
        gf_mul(0xe0, gf_inv(0xe0)) == 1,
        gf_mul(0xe1, gf_inv(0xe1)) == 1,
        gf_mul(0xe2, gf_inv(0xe2)) == 1,
        gf_mul(0xe3, gf_inv(0xe3)) == 1,
        gf_mul(0xe4, gf_inv(0xe4)) == 1,
        gf_mul(0xe5, gf_inv(0xe5)) == 1,
        gf_mul(0xe6, gf_inv(0xe6)) == 1,
        gf_mul(0xe7, gf_inv(0xe7)) == 1,
        gf_mul(0xe8, gf_inv(0xe8)) == 1,
        gf_mul(0xe9, gf_inv(0xe9)) == 1,
        gf_mul(0xea, gf_inv(0xea)) == 1,
        gf_mul(0xeb, gf_inv(0xeb)) == 1,
        gf_mul(0xec, gf_inv(0xec)) == 1,
        gf_mul(0xed, gf_inv(0xed)) == 1,
        gf_mul(0xee, gf_inv(0xee)) == 1,
        gf_mul(0xef, gf_inv(0xef)) == 1,
        gf_mul(0xf0, gf_inv(0xf0)) == 1,
        gf_mul(0xf1, gf_inv(0xf1)) == 1,
        gf_mul(0xf2, gf_inv(0xf2)) == 1,
        gf_mul(0xf3, gf_inv(0xf3)) == 1,
        gf_mul(0xf4, gf_inv(0xf4)) == 1,
        gf_mul(0xf5, gf_inv(0xf5)) == 1,
        gf_mul(0xf6, gf_inv(0xf6)) == 1,
        gf_mul(0xf7, gf_inv(0xf7)) == 1,
        gf_mul(0xf8, gf_inv(0xf8)) == 1,
        gf_mul(0xf9, gf_inv(0xf9)) == 1,
        gf_mul(0xfa, gf_inv(0xfa)) == 1,
        gf_mul(0xfb, gf_inv(0xfb)) == 1,
        gf_mul(0xfc, gf_inv(0xfc)) == 1,
        gf_mul(0xfd, gf_inv(0xfd)) == 1,
        gf_mul(0xfe, gf_inv(0xfe)) == 1,
        gf_mul(0xff, gf_inv(0xff)) == 1,
{
}

proof fn lemma_inv_sbox_values()
    by (bit_vector)
    ensures
        inv_sbox(0x63) == 0x00,
        inv_sbox(0x7c) == 0x01,
        inv_sbox(0x77) == 0x02,
        inv_sbox(0x7b) == 0x03,
        inv_sbox(0xf2) == 0x04,
        inv_sbox(0x6b) == 0x05,
        inv_sbox(0x6f) == 0x06,
        inv_sbox(0xc5) == 0x07,
        inv_sbox(0x30) == 0x08,
        inv_sbox(0x01) == 0x09,
        inv_sbox(0x67) == 0x0a,
        inv_sbox(0x2b) == 0x0b,
        inv_sbox(0xfe) == 0x0c,
        inv_sbox(0xd7) == 0x0d,
        inv_sbox(0xab) == 0x0e,
        inv_sbox(0x76) == 0x0f,
        inv_sbox(0xca) == 0x10,
        inv_sbox(0x82) == 0x11,
        inv_sbox(0xc9) == 0x12,
        inv_sbox(0x7d) == 0x13,
        inv_sbox(0xfa) == 0x14,
        inv_sbox(0x59) == 0x15,
        inv_sbox(0x47) == 0x16,
        inv_sbox(0xf0) == 0x17,
        inv_sbox(0xad) == 0x18,
        inv_sbox(0xd4) == 0x19,
        inv_sbox(0xa2) == 0x1a,
        inv_sbox(0xaf) == 0x1b,
        inv_sbox(0x9c) == 0x1c,
        inv_sbox(0xa4) == 0x1d,
        inv_sbox(0x72) == 0x1e,
        inv_sbox(0xc0) == 0x1f,
        inv_sbox(0xb7) == 0x20,
        inv_sbox(0xfd) == 0x21,
        inv_sbox(0x93) == 0x22,
        inv_sbox(0x26) == 0x23,
        inv_sbox(0x36) == 0x24,
        inv_sbox(0x3f) == 0x25,
        inv_sbox(0xf7) == 0x26,
        inv_sbox(0xcc) == 0x27,
        inv_sbox(0x34) == 0x28,
        inv_sbox(0xa5) == 0x29,
        inv_sbox(0xe5) == 0x2a,
        inv_sbox(0xf1) == 0x2b,
        inv_sbox(0x71) == 0x2c,
        inv_sbox(0xd8) == 0x2d,
        inv_sbox(0x31) == 0x2e,
        inv_sbox(0x15) == 0x2f,
        inv_sbox(0x04) == 0x30,
        inv_sbox(0xc7) == 0x31,
        inv_sbox(0x23) == 0x32,
        inv_sbox(0xc3) == 0x33,
        inv_sbox(0x18) == 0x34,
        inv_sbox(0x96) == 0x35,
        inv_sbox(0x05) == 0x36,
        inv_sbox(0x9a) == 0x37,
        inv_sbox(0x07) == 0x38,
        inv_sbox(0x12) == 0x39,
        inv_sbox(0x80) == 0x3a,
        inv_sbox(0xe2) == 0x3b,
        inv_sbox(0xeb) == 0x3c,
        inv_sbox(0x27) == 0x3d,
        inv_sbox(0xb2) == 0x3e,
        inv_sbox(0x75) == 0x3f,
        inv_sbox(0x09) == 0x40,
        inv_sbox(0x83) == 0x41,
        inv_sbox(0x2c) == 0x42,
        inv_sbox(0x1a) == 0x43,
        inv_sbox(0x1b) == 0x44,
        inv_sbox(0x6e) == 0x45,
        inv_sbox(0x5a) == 0x46,
        inv_sbox(0xa0) == 0x47,
        inv_sbox(0x52) == 0x48,
        inv_sbox(0x3b) == 0x49,
        inv_sbox(0xd6) == 0x4a,
        inv_sbox(0xb3) == 0x4b,
        inv_sbox(0x29) == 0x4c,
        inv_sbox(0xe3) == 0x4d,
        inv_sbox(0x2f) == 0x4e,
        inv_sbox(0x84) == 0x4f,
        inv_sbox(0x53) == 0x50,
        inv_sbox(0xd1) == 0x51,
        inv_sbox(0x00) == 0x52,
        inv_sbox(0xed) == 0x53,
        inv_sbox(0x20) == 0x54,
        inv_sbox(0xfc) == 0x55,
        inv_sbox(0xb1) == 0x56,
        inv_sbox(0x5b) == 0x57,
        inv_sbox(0x6a) == 0x58,
        inv_sbox(0xcb) == 0x59,
        inv_sbox(0xbe) == 0x5a,
        inv_sbox(0x39) == 0x5b,
        inv_sbox(0x4a) == 0x5c,
        inv_sbox(0x4c) == 0x5d,
        inv_sbox(0x58) == 0x5e,
        inv_sbox(0xcf) == 0x5f,
        inv_sbox(0xd0) == 0x60,
        inv_sbox(0xef) == 0x61,
        inv_sbox(0xaa) == 0x62,
        inv_sbox(0xfb) == 0x63,
        inv_sbox(0x43) == 0x64,
        inv_sbox(0x4d) == 0x65,
        inv_sbox(0x33) == 0x66,
        inv_sbox(0x85) == 0x67,
        inv_sbox(0x45) == 0x68,
        inv_sbox(0xf9) == 0x69,
        inv_sbox(0x02) == 0x6a,
        inv_sbox(0x7f) == 0x6b,
        inv_sbox(0x50) == 0x6c,
        inv_sbox(0x3c) == 0x6d,
        inv_sbox(0x9f) == 0x6e,
        inv_sbox(0xa8) == 0x6f,
        inv_sbox(0x51) == 0x70,
        inv_sbox(0xa3) == 0x71,
        inv_sbox(0x40) == 0x72,
        inv_sbox(0x8f) == 0x73,
        inv_sbox(0x92) == 0x74,
        inv_sbox(0x9d) == 0x75,
        inv_sbox(0x38) == 0x76,
        inv_sbox(0xf5) == 0x77,
        inv_sbox(0xbc) == 0x78,
        inv_sbox(0xb6) == 0x79,
        inv_sbox(0xda) == 0x7a,
        inv_sbox(0x21) == 0x7b,
        inv_sbox(0x10) == 0x7c,
        inv_sbox(0xff) == 0x7d,
        inv_sbox(0xf3) == 0x7e,
        inv_sbox(0xd2) == 0x7f,
        inv_sbox(0xcd) == 0x80,
        inv_sbox(0x0c) == 0x81,
        inv_sbox(0x13) == 0x82,
        inv_sbox(0xec) == 0x83,
        inv_sbox(0x5f) == 0x84,
        inv_sbox(0x97) == 0x85,
        inv_sbox(0x44) == 0x86,
        inv_sbox(0x17) == 0x87,
        inv_sbox(0xc4) == 0x88,
        inv_sbox(0xa7) == 0x89,
        inv_sbox(0x7e) == 0x8a,
        inv_sbox(0x3d) == 0x8b,
        inv_sbox(0x64) == 0x8c,
        inv_sbox(0x5d) == 0x8d,
        inv_sbox(0x19) == 0x8e,
        inv_sbox(0x73) == 0x8f,
        inv_sbox(0x60) == 0x90,
        inv_sbox(0x81) == 0x91,
        inv_sbox(0x4f) == 0x92,
        inv_sbox(0xdc) == 0x93,
        inv_sbox(0x22) == 0x94,
        inv_sbox(0x2a) == 0x95,
        inv_sbox(0x90) == 0x96,
        inv_sbox(0x88) == 0x97,
        inv_sbox(0x46) == 0x98,
        inv_sbox(0xee) == 0x99,
        inv_sbox(0xb8) == 0x9a,
        inv_sbox(0x14) == 0x9b,
        inv_sbox(0xde) == 0x9c,
        inv_sbox(0x5e) == 0x9d,
        inv_sbox(0x0b) == 0x9e,
        inv_sbox(0xdb) == 0x9f,
        inv_sbox(0xe0) == 0xa0,
        inv_sbox(0x32) == 0xa1,
        inv_sbox(0x3a) == 0xa2,
        inv_sbox(0x0a) == 0xa3,
        inv_sbox(0x49) == 0xa4,
        inv_sbox(0x06) == 0xa5,
        inv_sbox(0x24) == 0xa6,
        inv_sbox(0x5c) == 0xa7,
        inv_sbox(0xc2) == 0xa8,
        inv_sbox(0xd3) == 0xa9,
        inv_sbox(0xac) == 0xaa,
        inv_sbox(0x62) == 0xab,
        inv_sbox(0x91) == 0xac,
        inv_sbox(0x95) == 0xad,
        inv_sbox(0xe4) == 0xae,
        inv_sbox(0x79) == 0xaf,
        inv_sbox(0xe7) == 0xb0,
        inv_sbox(0xc8) == 0xb1,
        inv_sbox(0x37) == 0xb2,
        inv_sbox(0x6d) == 0xb3,
        inv_sbox(0x8d) == 0xb4,
        inv_sbox(0xd5) == 0xb5,
        inv_sbox(0x4e) == 0xb6,
        inv_sbox(0xa9) == 0xb7,
        inv_sbox(0x6c) == 0xb8,
        inv_sbox(0x56) == 0xb9,
        inv_sbox(0xf4) == 0xba,
        inv_sbox(0xea) == 0xbb,
        inv_sbox(0x65) == 0xbc,
        inv_sbox(0x7a) == 0xbd,
        inv_sbox(0xae) == 0xbe,
        inv_sbox(0x08) == 0xbf,
        inv_sbox(0xba) == 0xc0,
        inv_sbox(0x78) == 0xc1,
        inv_sbox(0x25) == 0xc2,
        inv_sbox(0x2e) == 0xc3,
        inv_sbox(0x1c) == 0xc4,
        inv_sbox(0xa6) == 0xc5,
        inv_sbox(0xb4) == 0xc6,
        inv_sbox(0xc6) == 0xc7,
        inv_sbox(0xe8) == 0xc8,
        inv_sbox(0xdd) == 0xc9,
        inv_sbox(0x74) == 0xca,
        inv_sbox(0x1f) == 0xcb,
        inv_sbox(0x4b) == 0xcc,
        inv_sbox(0xbd) == 0xcd,
        inv_sbox(0x8b) == 0xce,
        inv_sbox(0x8a) == 0xcf,
        inv_sbox(0x70) == 0xd0,
        inv_sbox(0x3e) == 0xd1,
        inv_sbox(0xb5) == 0xd2,
        inv_sbox(0x66) == 0xd3,
        inv_sbox(0x48) == 0xd4,
        inv_sbox(0x03) == 0xd5,
        inv_sbox(0xf6) == 0xd6,
        inv_sbox(0x0e) == 0xd7,
        inv_sbox(0x61) == 0xd8,
        inv_sbox(0x35) == 0xd9,
        inv_sbox(0x57) == 0xda,
        inv_sbox(0xb9) == 0xdb,
        inv_sbox(0x86) == 0xdc,
        inv_sbox(0xc1) == 0xdd,
        inv_sbox(0x1d) == 0xde,
        inv_sbox(0x9e) == 0xdf,
        inv_sbox(0xe1) == 0xe0,
        inv_sbox(0xf8) == 0xe1,
        inv_sbox(0x98) == 0xe2,
        inv_sbox(0x11) == 0xe3,
        inv_sbox(0x69) == 0xe4,
        inv_sbox(0xd9) == 0xe5,
        inv_sbox(0x8e) == 0xe6,
        inv_sbox(0x94) == 0xe7,
        inv_sbox(0x9b) == 0xe8,
        inv_sbox(0x1e) == 0xe9,
        inv_sbox(0x87) == 0xea,
        inv_sbox(0xe9) == 0xeb,
        inv_sbox(0xce) == 0xec,
        inv_sbox(0x55) == 0xed,
        inv_sbox(0x28) == 0xee,
        inv_sbox(0xdf) == 0xef,
        inv_sbox(0x8c) == 0xf0,
        inv_sbox(0xa1) == 0xf1,
        inv_sbox(0x89) == 0xf2,
        inv_sbox(0x0d) == 0xf3,
        inv_sbox(0xbf) == 0xf4,
        inv_sbox(0xe6) == 0xf5,
        inv_sbox(0x42) == 0xf6,
        inv_sbox(0x68) == 0xf7,
        inv_sbox(0x41) == 0xf8,
        inv_sbox(0x99) == 0xf9,
        inv_sbox(0x2d) == 0xfa,
        inv_sbox(0x0f) == 0xfb,
        inv_sbox(0xb0) == 0xfc,
        inv_sbox(0x54) == 0xfd,
        inv_sbox(0xbb) == 0xfe,
        inv_sbox(0x16) == 0xff,
{
}

/// Multiplying by 2 is one `xtime`; multiplying by 3 adds the element itself.
pub proof fn lemma_mul_small(a: u8)
    by (bit_vector)
    ensures
        gf_mul(a, 2) == xtime(a),
        gf_mul(a, 3) == xtime(a) ^ a,
{
}

/// Every entry of the table is the substitution box's value at its index.
pub proof fn lemma_sbox_table(x: u8)
    ensures
        SBOX@[x as int] == sbox(x),
{
    lemma_sbox_values();
}

/// `gf_inv` is the inverse for multiplication in GF(2^8), with zero mapped to
/// zero.
pub proof fn lemma_gf_inv_inverts(x: u8)
    ensures
        x != 0 ==> gf_mul(x, gf_inv(x)) == 1,
        x == 0 ==> gf_inv(x) == 0,
{
    lemma_inverse_values();
}

/// The inverse substitution box undoes the substitution box.
pub proof fn lemma_sbox_inverts(x: u8)
    ensures
        inv_sbox(sbox(x)) == x,
{
    lemma_sbox_values();
    lemma_inv_sbox_values();
}

/// The substitution box is one-to-one: it permutes the 256 bytes.
pub proof fn lemma_sbox_injective(x: u8, y: u8)
    requires
        sbox(x) == sbox(y),
    ensures
        x == y,
{
    lemma_sbox_inverts(x);
    lemma_sbox_inverts(y);
}

/// Replaces one byte by its image under the substitution box.
pub fn sub_byte(x: u8) -> (y: u8)
    ensures
        y == sbox(x),
{
    proof {
        lemma_sbox_table(x);
    }
    SBOX[x as usize]
}

} // verus!
