use gxhash::gxhash::aes::compress_all;
use gxhash::gxhash::common::State;
use gxhash::gxhash::{compress, create_empty, finalize, gxhash};

#[test]
fn all_blocks_are_consumed() {
    let mut bytes = [42u8; 1200];

    let ref_hash = gxhash(&bytes);

    for i in 0..bytes.len() {
        let swap = bytes[i];
        bytes[i] = 82;
        let new_hash = gxhash(&bytes);
        bytes[i] = swap;

        assert_ne!(ref_hash, new_hash, "byte {i} not processed");
    }
}

#[test]
fn hash_of_zero_is_not_zero() {
    assert_ne!(0, gxhash(&[0u8; 0]));
    assert_ne!(0, gxhash(&[0u8; 1]));
    assert_ne!(0, gxhash(&[0u8; 1200]));
}

#[test]
fn empty_message_has_a_fixed_nonzero_digest() {
    assert_eq!(gxhash(&[]), 0x0b409934);
    assert_eq!(gxhash(&Vec::new()), 0x0b409934);
}

#[test]
fn digests_of_zero_messages_match_known_values() {
    assert_eq!(gxhash(&[0u8; 1]), 0x8f7a2ab0);
    assert_eq!(gxhash(&[0u8; 15]), 0x60f50e1b);
    assert_eq!(gxhash(&[0u8; 16]), 0xe0ce7759);
    assert_eq!(gxhash(&[0u8; 17]), 0xd3c19e00);
    assert_eq!(gxhash(&[0u8; 31]), 0x659f0007);
    assert_eq!(gxhash(&[0u8; 32]), 0xd5fdf3d7);
    assert_eq!(gxhash(&[0u8; 33]), 0x9b880c2e);
    assert_eq!(gxhash(&[0u8; 47]), 0x33c79b81);
    assert_eq!(gxhash(&[0u8; 48]), 0x6da1bdb5);
    assert_eq!(gxhash(&[0u8; 49]), 0x5b91615b);
    assert_eq!(gxhash(&[0u8; 63]), 0x4ce7f1ec);
    assert_eq!(gxhash(&[0u8; 64]), 0x81e0a695);
    assert_eq!(gxhash(&[0u8; 65]), 0xbea7b256);
    assert_eq!(gxhash(&[0u8; 128]), 0x7a20da7d);
    assert_eq!(gxhash(&[0u8; 176]), 0x6efe866d);
    assert_eq!(gxhash(&[0u8; 177]), 0x8174a824);
    assert_eq!(gxhash(&[0u8; 1200]), 0xe163fdef);
}

#[test]
fn digests_of_text_match_known_values() {
    assert_eq!(gxhash(b"hello world"), 0xf1c4f777);
    assert_eq!(gxhash(b"The quick brown fox jumps over the lazy dog"), 0x197f9b7e);
    let counting: Vec<u8> = (0..200).map(|i| i as u8).collect();
    assert_eq!(gxhash(&counting), 0x79bbcb35);
    assert_eq!(gxhash(&counting[..100]), 0xa98a0dd3);
}

#[test]
fn repeated_calls_give_the_same_digest() {
    let message: Vec<u8> = (0..5000).map(|i| (i * 31 + 7) as u8).collect();
    for len in [0, 1, 15, 16, 17, 48, 49, 200, 1200, 5000] {
        let first = gxhash(&message[..len]);
        for _ in 0..3 {
            assert_eq!(first, gxhash(&message[..len]));
        }
        let copy = message[..len].to_vec();
        assert_eq!(first, gxhash(&copy));
    }
}

#[test]
fn zero_messages_of_different_lengths_have_different_nonzero_digests() {
    let zeros = vec![0u8; 1200];
    let mut seen: Vec<u32> = Vec::new();
    for n in 0..=1200 {
        let digest = gxhash(&zeros[..n]);
        assert_ne!(digest, 0, "length {n}");
        assert!(!seen.contains(&digest), "length {n} repeats an earlier digest");
        seen.push(digest);
    }
}

#[test]
fn lengths_around_one_register_are_deterministic_and_content_sensitive() {
    let message = [42u8; 17];
    let expected = [0xb11a1121u32, 0x4e18f9bc, 0x3c27f081];
    for (k, len) in [15usize, 16, 17].into_iter().enumerate() {
        let digest = gxhash(&message[..len]);
        assert_eq!(digest, expected[k]);
        assert_eq!(digest, gxhash(&message[..len]));
        for i in 0..len {
            let mut changed = message;
            changed[i] = 82;
            assert_ne!(digest, gxhash(&changed[..len]), "length {len}, byte {i}");
        }
    }
    assert_ne!(expected[0], expected[1]);
    assert_ne!(expected[1], expected[2]);
    assert_ne!(expected[0], expected[2]);
}

#[test]
fn lengths_around_every_tier_are_content_sensitive() {
    let message: Vec<u8> = (0..200).map(|i| (i * 7 + 1) as u8).collect();
    for len in [1usize, 31, 32, 33, 47, 48, 49, 63, 64, 65, 175, 176, 177, 200] {
        let digest = gxhash(&message[..len]);
        for i in 0..len {
            let mut changed = message.clone();
            changed[i] ^= 0x40;
            assert_ne!(digest, gxhash(&changed[..len]), "length {len}, byte {i}");
        }
    }
}

#[test]
fn large_zero_message_differs_from_one_byte_less() {
    let zeros = vec![0u8; 16384];
    assert_eq!(gxhash(&zeros), 0xde247ec2);
    assert_eq!(gxhash(&zeros[..16383]), 0x9f66f033);
    assert_ne!(gxhash(&zeros), gxhash(&zeros[..16383]));
}

#[test]
fn digest_does_not_depend_on_where_the_message_lies() {
    let message: Vec<u8> = (0..300).map(|i| (i * 13 + 5) as u8).collect();
    for len in [0usize, 1, 7, 15, 16, 17, 33, 64, 129, 300] {
        let expected = gxhash(&message[..len]);
        for shift in 0..40 {
            let mut buffer = vec![0xa5u8; shift];
            buffer.extend_from_slice(&message[..len]);
            buffer.extend_from_slice(&[0x5au8; 9]);
            assert_eq!(expected, gxhash(&buffer[shift..shift + len]), "length {len}, shift {shift}");
        }
    }
}

#[test]
fn digest_is_the_finalized_compressed_state() {
    let message: Vec<u8> = (0..200).map(|i| i as u8).collect();
    assert_eq!(gxhash(&message), finalize(compress_all(&message)));
    assert_eq!(gxhash(&[]), finalize(create_empty()));
}

#[test]
fn finalize_cuts_the_first_four_lanes() {
    let zero = create_empty();
    assert_eq!(zero.bytes.0, [0u8; 16]);
    assert_eq!(finalize(zero), 0x0b409934);
    let whitened = gxhash::gxhash::aes::finalize(zero);
    assert_eq!(
        whitened.bytes.0,
        [
            0x34, 0x99, 0x40, 0x0b, 0x33, 0x7a, 0xb2, 0x23, 0x33, 0xe6, 0x8b, 0xd1, 0xc8, 0x75,
            0x4f, 0xf6
        ]
    );
    assert_eq!(finalize(zero), whitened.to_u128() as u32);
}

#[test]
fn compress_is_a_last_round_keyed_by_the_block() {
    let mut lanes = [0u8; 16];
    for i in 0..16 {
        lanes[i] = (i * 17) as u8;
    }
    let a = State::from_u128(u128::from_le_bytes(lanes));
    let key = gxhash::gxhash::common::ld(&gxhash::gxhash::aes::KEYS, 0);
    assert_eq!(
        compress(a, key).bytes.0,
        [
            0x21, 0xb9, 0xd4, 0xe4, 0x3a, 0xd0, 0xb5, 0x73, 0x21, 0xe3, 0x51, 0x7c, 0xc5, 0x40,
            0x08, 0x16
        ]
    );
}
