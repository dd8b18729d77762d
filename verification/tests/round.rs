use gxhash::gxhash::aes::sbox::{sub_byte, SBOX};
use gxhash::gxhash::aes::{aes_encrypt, aes_encrypt_last, KEYS};
use gxhash::gxhash::common::{ld, Bytes, State};

fn state_of(lanes: [u8; 16]) -> State {
    State::load_vector(&Bytes(lanes))
}

#[test]
fn substitution_box_has_the_standard_entries() {
    assert_eq!(sub_byte(0x00), 0x63);
    assert_eq!(sub_byte(0x01), 0x7c);
    assert_eq!(sub_byte(0x53), 0xed);
    assert_eq!(sub_byte(0xff), 0x16);
    for x in 0..=255u8 {
        assert_eq!(sub_byte(x), SBOX[x as usize]);
    }
}

#[test]
fn substitution_box_is_a_permutation() {
    let mut seen = [false; 256];
    for x in 0..=255u8 {
        let y = sub_byte(x) as usize;
        assert!(!seen[y]);
        seen[y] = true;
    }
}

#[test]
fn full_round_matches_the_standard_example() {
    let state = state_of([
        0x19, 0x3d, 0xe3, 0xbe, 0xa0, 0xf4, 0xe2, 0x2b, 0x9a, 0xc6, 0x8d, 0x2a, 0xe9, 0xf8, 0x48,
        0x08,
    ]);
    let round_key = state_of([
        0xa0, 0xfa, 0xfe, 0x17, 0x88, 0x54, 0x2c, 0xb1, 0x23, 0xa3, 0x39, 0x39, 0x2a, 0x6c, 0x76,
        0x05,
    ]);
    assert_eq!(
        aes_encrypt(state, round_key).bytes.0,
        [
            0xa4, 0x9c, 0x7f, 0xf2, 0x68, 0x9f, 0x35, 0x2b, 0x6b, 0x5b, 0xea, 0x43, 0x02, 0x6a,
            0x50, 0x49
        ]
    );
}

#[test]
fn last_round_matches_the_standard_example() {
    let state = state_of([
        0xeb, 0x40, 0xf2, 0x1e, 0x59, 0x2e, 0x38, 0x84, 0x8b, 0xa1, 0x13, 0xe7, 0x1b, 0xc3, 0x42,
        0xd2,
    ]);
    let round_key = state_of([
        0xd0, 0x14, 0xf9, 0xa8, 0xc9, 0xee, 0x25, 0x89, 0xe1, 0x3f, 0x0c, 0xc8, 0xb6, 0x63, 0x0c,
        0xa6,
    ]);
    assert_eq!(
        aes_encrypt_last(state, round_key).bytes.0,
        [
            0x39, 0x25, 0x84, 0x1d, 0x02, 0xdc, 0x09, 0xfb, 0xdc, 0x11, 0x85, 0x97, 0x19, 0x6a,
            0x0b, 0x32
        ]
    );
}

#[test]
fn rounds_under_the_first_salt_key() {
    let mut lanes = [0u8; 16];
    for i in 0..16 {
        lanes[i] = (i * 17) as u8;
    }
    let key = ld(&KEYS, 0);
    assert_eq!(
        aes_encrypt(state_of(lanes), key).bytes.0,
        [
            0x21, 0x3c, 0x9e, 0x2b, 0xd5, 0x59, 0x66, 0xc6, 0x48, 0x24, 0xfe, 0x7d, 0x5c, 0x29,
            0xb1, 0x5f
        ]
    );
    assert_eq!(
        aes_encrypt_last(state_of(lanes), key).bytes.0,
        [
            0x21, 0xb9, 0xd4, 0xe4, 0x3a, 0xd0, 0xb5, 0x73, 0x21, 0xe3, 0x51, 0x7c, 0xc5, 0x40,
            0x08, 0x16
        ]
    );
}

#[test]
fn last_round_with_zero_key_substitutes_and_shifts_rows() {
    let mut lanes = [0u8; 16];
    for i in 0..16 {
        lanes[i] = (i * 17) as u8;
    }
    assert_eq!(
        aes_encrypt_last(state_of(lanes), State::new()).bytes.0,
        [
            0x63, 0xfc, 0xac, 0x16, 0x1b, 0xee, 0x28, 0xc3, 0xc4, 0xc1, 0x93, 0xf5, 0x4b, 0x82,
            0x33, 0xea
        ]
    );
}

#[test]
fn one_flipped_bit_changes_many_output_bits() {
    let key = ld(&KEYS, 0);
    let base = [0x5au8; 16];
    let reference = aes_encrypt(aes_encrypt(state_of(base), key), key).to_u128();
    for bit in 0..128 {
        let mut changed = base;
        changed[bit / 8] ^= 1 << (bit % 8);
        let out = aes_encrypt(aes_encrypt(state_of(changed), key), key).to_u128();
        let flipped = (out ^ reference).count_ones();
        assert!(flipped >= 32, "bit {bit} changed only {flipped} bits");
    }
}

#[test]
fn rounds_keep_distinct_registers_apart() {
    let key = ld(&KEYS, 4);
    let mut seen_full: Vec<u128> = Vec::new();
    let mut seen_last: Vec<u128> = Vec::new();
    for x in 0..=255u8 {
        let mut lanes = [7u8; 16];
        lanes[5] = x;
        let full = aes_encrypt(state_of(lanes), key).to_u128();
        let last = aes_encrypt_last(state_of(lanes), key).to_u128();
        assert!(!seen_full.contains(&full));
        assert!(!seen_last.contains(&last));
        seen_full.push(full);
        seen_last.push(last);
    }
}
