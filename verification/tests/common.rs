use gxhash::gxhash::aes::KEYS;
use gxhash::gxhash::common::{
    add_u8, ld, load_i128, load_i16, load_i32, load_i64, load_i8, load_u128, load_u16, load_u32,
    load_u64, load_u8, load_unaligned, new, xor, Bytes, State, REGISTER_WIDTH,
};

#[test]
fn new_register_is_zero() {
    assert_eq!(new().bytes.0, [0u8; 16]);
    assert_eq!(State::new().bytes.0, [0u8; 16]);
    assert_eq!(Bytes::new().0, [0u8; 16]);
    assert_eq!(State::new().to_u128(), 0);
    assert_eq!(REGISTER_WIDTH, 16);
}

#[test]
fn xor_works_lane_by_lane() {
    let a = load_u128(0x00112233445566778899aabbccddeeff);
    let b = load_u128(0xffffffff00000000f0f0f0f00f0f0f0f);
    assert_eq!(xor(a, b).to_u128(), 0x00112233445566778899aabbccddeeff ^ 0xffffffff00000000f0f0f0f00f0f0f0f);
    assert_eq!(a.bitxor(a).bytes.0, [0u8; 16]);
    assert_eq!(xor(a, new()), a);
}

#[test]
fn add_wraps_within_each_lane() {
    let a = load_u8(0xff);
    let b = load_u8(0x02);
    assert_eq!(add_u8(a, b).bytes.0, [0x01u8; 16]);
    let c = State::load_vector(&Bytes([
        0xff, 0x00, 0x80, 0x7f, 0x01, 0xfe, 0x10, 0xf0, 0x00, 0x00, 0xff, 0xff, 0x55, 0xaa, 0x01,
        0x00,
    ]));
    let d = State::load_vector(&Bytes([
        0x01, 0x00, 0x80, 0x01, 0xff, 0x02, 0xf0, 0x10, 0xff, 0x01, 0xff, 0x00, 0xaa, 0x55, 0x01,
        0x00,
    ]));
    assert_eq!(
        c.add_u8(d).bytes.0,
        [
            0x00, 0x00, 0x00, 0x80, 0x00, 0x00, 0x00, 0x00, 0xff, 0x01, 0xfe, 0xff, 0xff, 0xff,
            0x02, 0x00
        ]
    );
    assert_eq!(add_u8(c, d), c.add_u8(d));
}

#[test]
fn ld_reads_four_words_least_significant_byte_first() {
    assert_eq!(
        ld(&KEYS, 0).bytes.0,
        [
            0x42, 0x45, 0x78, 0xf2, 0x21, 0x3e, 0x9d, 0xb0, 0xe5, 0x22, 0xc2, 0x89, 0x8e, 0xc2,
            0x3b, 0xfc
        ]
    );
    assert_eq!(
        State::ld(&KEYS, 8).bytes.0,
        [
            0x32, 0x2e, 0x01, 0xd0, 0x7d, 0x2b, 0x9d, 0x68, 0xb7, 0xb1, 0x44, 0x55, 0x2b, 0x12,
            0x8b, 0xc7
        ]
    );
    let words = [0x04030201u32, 0x08070605, 0x0c0b0a09, 0x100f0e0d, 0xffffffff];
    assert_eq!(
        ld(&words, 0).bytes.0,
        [1, 2, 3, 4, 5, 6, 7, 8, 9, 10, 11, 12, 13, 14, 15, 16]
    );
    assert_eq!(
        ld(&words, 1).bytes.0,
        [5, 6, 7, 8, 9, 10, 11, 12, 13, 14, 15, 16, 0xff, 0xff, 0xff, 0xff]
    );
}

#[test]
fn load_unaligned_reads_one_register_width_at_any_offset() {
    let data: Vec<u8> = (0..40).collect();
    for offset in 0..=24usize {
        let state = load_unaligned(&data, offset);
        for i in 0..16 {
            assert_eq!(state.bytes.0[i], (offset + i) as u8);
        }
    }
}

#[test]
fn broadcasts_repeat_the_scalar() {
    assert_eq!(load_u8(0xab).bytes.0, [0xab; 16]);
    assert_eq!(
        load_u16(0x1234).bytes.0,
        [0x34, 0x12, 0x34, 0x12, 0x34, 0x12, 0x34, 0x12, 0x34, 0x12, 0x34, 0x12, 0x34, 0x12, 0x34, 0x12]
    );
    assert_eq!(
        load_u32(0x12345678).bytes.0,
        [0x78, 0x56, 0x34, 0x12, 0x78, 0x56, 0x34, 0x12, 0x78, 0x56, 0x34, 0x12, 0x78, 0x56, 0x34, 0x12]
    );
    assert_eq!(
        load_u64(0x0123456789abcdef).bytes.0,
        [0xef, 0xcd, 0xab, 0x89, 0x67, 0x45, 0x23, 0x01, 0xef, 0xcd, 0xab, 0x89, 0x67, 0x45, 0x23, 0x01]
    );
    assert_eq!(
        load_u128(0x0f0e0d0c0b0a09080706050403020100).bytes.0,
        [0, 1, 2, 3, 4, 5, 6, 7, 8, 9, 10, 11, 12, 13, 14, 15]
    );
}

#[test]
fn signed_broadcasts_keep_the_bit_pattern() {
    assert_eq!(load_i8(-1).bytes.0, [0xff; 16]);
    assert_eq!(load_i8(5), load_u8(5));
    assert_eq!(load_i16(-2), load_u16(0xfffe));
    assert_eq!(load_i32(-3), load_u32(0xfffffffd));
    assert_eq!(load_i64(-4), load_u64(0xfffffffffffffffc));
    assert_eq!(load_i128(-5), load_u128(u128::MAX - 4));
    assert_eq!(load_i128(7).to_u128(), 7);
}

#[test]
fn integer_view_and_byte_view_agree() {
    let values = [
        0u128,
        1,
        0x80,
        0x0123456789abcdef0fedcba987654321,
        u128::MAX,
        1 << 127,
    ];
    for x in values {
        let state = State::from_u128(x);
        assert_eq!(state.to_u128(), x);
        assert_eq!(state.bytes.0, x.to_le_bytes());
        assert_eq!(state.to_bytes().0, x.to_le_bytes());
        assert_eq!(State::load_vector(&state.to_bytes()), state);
    }
}
