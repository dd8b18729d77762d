use gxhash::gxhash::aes::wide::{
    add_u8_x2, aes_encrypt_last_x2, aes_encrypt_x2, finalize_wide, load_unaligned_x2, WideState,
};
use gxhash::gxhash::aes::{
    aes_encrypt, aes_encrypt_last, compress_8, compress_8_hybrid, compress_all, compress_many,
    finalize, new_optimal, KEYS,
};
use gxhash::gxhash::common::{add_u8, ld, load_unaligned, xor, Bytes, State};

fn running_hash() -> State {
    let mut lanes = [0u8; 16];
    for i in 0..16 {
        lanes[i] = (i * 17) as u8;
    }
    State::load_vector(&Bytes(lanes))
}

fn sample(len: usize) -> Vec<u8> {
    (0..len).map(|i| (7 * i + 3) as u8).collect()
}

#[test]
fn compress_all_of_the_empty_message_is_zero() {
    assert_eq!(compress_all(&[]).bytes.0, [0u8; 16]);
}

#[test]
fn compress_all_of_a_short_message_is_its_partial_load() {
    assert_eq!(
        compress_all(&[1, 2, 3, 4, 5, 6, 7]).bytes.0,
        [8, 9, 10, 11, 12, 13, 14, 7, 7, 7, 7, 7, 7, 7, 7, 7]
    );
    assert_eq!(compress_all(&[250u8; 16]).bytes.0, [10u8; 16]);
}

#[test]
fn compress_all_matches_known_states_in_every_tier() {
    let counting: Vec<u8> = (0..200).map(|i| i as u8).collect();
    assert_eq!(
        compress_all(&counting[..20]).bytes.0,
        [
            0xa3, 0x16, 0xec, 0xa5, 0xf7, 0xbb, 0xc1, 0x83, 0x6c, 0x59, 0x35, 0x25, 0xe4, 0xa2,
            0xf5, 0xfb
        ]
    );
    assert_eq!(
        compress_all(&counting[..40]).bytes.0,
        [
            0x5f, 0xbd, 0xa7, 0x8f, 0xbc, 0x9b, 0x18, 0x38, 0x3f, 0xe5, 0xd9, 0x0d, 0x7c, 0x42,
            0xf3, 0x83
        ]
    );
    assert_eq!(
        compress_all(&counting[..48]).bytes.0,
        [
            0x5f, 0x84, 0xba, 0xc0, 0xee, 0xcf, 0x2e, 0x98, 0x8b, 0xe7, 0x2c, 0x85, 0xb9, 0xe9,
            0x57, 0x20
        ]
    );
    assert_eq!(
        compress_all(&counting[..64]).bytes.0,
        [
            0xfb, 0x2b, 0x60, 0x12, 0x35, 0x17, 0x4f, 0xbf, 0x22, 0x2e, 0xb1, 0xe7, 0xee, 0xff,
            0x74, 0x3c
        ]
    );
    assert_eq!(
        compress_all(&counting).bytes.0,
        [
            0xf2, 0xaa, 0xd8, 0xf7, 0x64, 0xc1, 0x72, 0xcf, 0xde, 0x90, 0x9f, 0x05, 0x95, 0x0a,
            0x79, 0x6e
        ]
    );
}

#[test]
fn two_block_message_is_the_first_block_whitened_by_the_second() {
    let message = sample(32);
    let first = load_unaligned(&message, 0);
    let second = load_unaligned(&message, 16);
    let key = aes_encrypt(aes_encrypt(second, ld(&KEYS, 0)), ld(&KEYS, 4));
    assert_eq!(compress_all(&message), aes_encrypt_last(first, key));
}

#[test]
fn compress_8_matches_known_states() {
    let data = sample(256);
    assert_eq!(
        compress_8(&data, 0, running_hash(), 256).bytes.0,
        [
            0xe7, 0x01, 0xb4, 0xdb, 0x16, 0x6e, 0x74, 0x2b, 0x9d, 0xc1, 0x7e, 0x87, 0xef, 0xa7,
            0x0a, 0xfd
        ]
    );
    assert_eq!(
        compress_8(&data, 256, running_hash(), 5).bytes.0,
        [
            0x76, 0x60, 0xcc, 0xf2, 0xfd, 0x12, 0xbd, 0x61, 0x09, 0x06, 0x0f, 0xff, 0xe9, 0x43,
            0x11, 0xc3
        ]
    );
    assert_eq!(compress_8(&[], 0, running_hash(), 5), compress_8(&data, 256, running_hash(), 5));
}

#[test]
fn compress_8_mixes_in_the_message_length() {
    let data = sample(128);
    let a = compress_8(&data, 0, running_hash(), 128);
    let b = compress_8(&data, 0, running_hash(), 129);
    assert_ne!(a, b);
    // Only the low 32 bits of the length take part.
    if usize::BITS > 32 {
        let wrapped = 128usize.wrapping_add(1usize.wrapping_shl(32));
        assert_eq!(a, compress_8(&data, 0, running_hash(), wrapped));
    }
}

#[test]
fn compress_many_matches_known_states() {
    let data = sample(256);
    assert_eq!(
        compress_many(&data[..176], 0, running_hash(), 176).bytes.0,
        [
            0xb4, 0x61, 0xb4, 0xbc, 0xf6, 0x43, 0x44, 0x5d, 0xef, 0x02, 0x98, 0xed, 0x85, 0x56,
            0x69, 0x86
        ]
    );
    assert_eq!(
        compress_many(&data[..48], 0, running_hash(), 48).bytes.0,
        [
            0xdb, 0xea, 0x3b, 0x5e, 0xa7, 0x41, 0x34, 0x23, 0xc8, 0xf2, 0x31, 0xb7, 0xb4, 0x2b,
            0x3f, 0xa8
        ]
    );
    assert_eq!(
        compress_many(&data[80..], 0, running_hash(), 176),
        compress_many(&data, 80, running_hash(), 176)
    );
}

#[test]
fn compress_many_takes_the_odd_blocks_first() {
    let data = sample(176);
    let mut hash = running_hash();
    for block in 0..3 {
        hash = aes_encrypt(hash, load_unaligned(&data, 16 * block));
    }
    assert_eq!(compress_many(&data, 0, running_hash(), 176), compress_8(&data, 48, hash, 176));
}

#[test]
fn wide_loop_returns_what_the_narrow_loop_returns() {
    let data = sample(128 * 5 + 40);
    for start in [40usize, 168, 296, 424, 552, 680] {
        for len in [0usize, 1, 128, 680, 70000] {
            assert_eq!(
                compress_8_hybrid(&data, start, running_hash(), len),
                compress_8(&data, start, running_hash(), len),
                "start {start}, length {len}"
            );
        }
    }
    assert_eq!(
        compress_8_hybrid(&sample(256), 0, running_hash(), 256).bytes.0,
        [
            0xe7, 0x01, 0xb4, 0xdb, 0x16, 0x6e, 0x74, 0x2b, 0x9d, 0xc1, 0x7e, 0x87, 0xef, 0xa7,
            0x0a, 0xfd
        ]
    );
}

#[test]
fn wide_operations_work_on_each_half() {
    let data = sample(64);
    let a = load_unaligned_x2(&data, 0);
    let b = load_unaligned_x2(&data, 32);
    assert_eq!(a.lo, load_unaligned(&data, 0));
    assert_eq!(a.hi, load_unaligned(&data, 16));
    assert_eq!(a.low(), a.lo);
    assert_eq!(a.high(), a.hi);
    assert_eq!(WideState::from_halves(a.lo, a.hi), a);
    assert_eq!(WideState::zero().lo.bytes.0, [0u8; 16]);
    assert_eq!(WideState::zero().hi.bytes.0, [0u8; 16]);
    let round = aes_encrypt_x2(a, b);
    assert_eq!(round.lo, aes_encrypt(a.lo, b.lo));
    assert_eq!(round.hi, aes_encrypt(a.hi, b.hi));
    let last = aes_encrypt_last_x2(a, b);
    assert_eq!(last.lo, aes_encrypt_last(a.lo, b.lo));
    assert_eq!(last.hi, aes_encrypt_last(a.hi, b.hi));
    let sum = add_u8_x2(a, b);
    assert_eq!(sum.lo, add_u8(a.lo, b.lo));
    assert_eq!(sum.hi, add_u8(a.hi, b.hi));
    assert_eq!(a.fold(), xor(a.lo, a.hi));
}

#[test]
fn finalize_matches_known_states() {
    assert_eq!(
        finalize(State::new()).bytes.0,
        [
            0x34, 0x99, 0x40, 0x0b, 0x33, 0x7a, 0xb2, 0x23, 0x33, 0xe6, 0x8b, 0xd1, 0xc8, 0x75,
            0x4f, 0xf6
        ]
    );
    let wide = WideState::from_halves(running_hash(), ld(&KEYS, 4));
    assert_eq!(
        finalize_wide(wide).bytes.0,
        [
            0xa9, 0x6e, 0x59, 0x16, 0x47, 0x15, 0x66, 0xee, 0xf1, 0x4b, 0x99, 0x6b, 0xba, 0xc4,
            0x3e, 0x82
        ]
    );
    assert_eq!(finalize_wide(wide), finalize(xor(wide.lo, wide.hi)));
}

#[test]
fn finalize_is_three_rounds_under_the_salt() {
    let hash = running_hash();
    let expected = aes_encrypt_last(
        aes_encrypt(aes_encrypt(hash, ld(&KEYS, 0)), ld(&KEYS, 4)),
        ld(&KEYS, 8),
    );
    assert_eq!(finalize(hash), expected);
}

#[test]
fn new_optimal_can_be_called() {
    new_optimal();
    assert_eq!(KEYS.len(), 12);
}

#[test]
fn replacing_one_byte_changes_the_compressed_state() {
    let message: Vec<u8> = (0..400).map(|i| (i * 7 + 1) as u8).collect();
    for len in [1usize, 16, 17, 32, 33, 48, 49, 64, 65, 176, 177, 200, 305, 400] {
        let state = compress_all(&message[..len]);
        let whitened = finalize(state);
        for i in 0..len {
            let mut changed = message.clone();
            changed[i] = changed[i].wrapping_add(1);
            let other = compress_all(&changed[..len]);
            assert_ne!(state, other, "length {len}, byte {i}");
            assert_ne!(whitened, finalize(other), "length {len}, byte {i}");
        }
    }
}

#[test]
fn finalize_keeps_distinct_states_apart() {
    let mut seen: Vec<u128> = Vec::new();
    for len in 0..=16usize {
        let whitened = finalize(compress_all(&[0u8; 16][..len])).to_u128();
        assert!(!seen.contains(&whitened));
        seen.push(whitened);
    }
}
