use gxhash::gxhash::aes::partial::PAGE_SIZE;
use gxhash::gxhash::aes::{
    check_same_page, get_partial, get_partial_safe, get_partial_unsafe, AESHasherState,
};
use gxhash::gxhash::common::State;

#[test]
fn page_check_at_every_offset_of_a_page() {
    assert_eq!(PAGE_SIZE, 4096);
    for page in [0usize, 1, 7, 1 << 20] {
        for offset in 0..PAGE_SIZE {
            let address = page * PAGE_SIZE + offset;
            let same_page = address / PAGE_SIZE == (address + 15) / PAGE_SIZE;
            assert_eq!(check_same_page(address), same_page, "address {address}");
            assert_eq!(check_same_page(address), offset <= PAGE_SIZE - 16);
        }
    }
}

#[test]
fn page_check_at_the_edge() {
    assert!(check_same_page(0));
    assert!(check_same_page(4079));
    assert!(check_same_page(4080));
    assert!(!check_same_page(4081));
    assert!(!check_same_page(4095));
    assert!(check_same_page(4096));
    assert!(!check_same_page(usize::MAX));
}

#[test]
fn partial_load_pads_with_zero_and_adds_the_length() {
    let chunk = [1u8, 2, 3, 4, 5, 6, 7];
    assert_eq!(
        get_partial_safe(&chunk, 7).bytes.0,
        [8, 9, 10, 11, 12, 13, 14, 7, 7, 7, 7, 7, 7, 7, 7, 7]
    );
    assert_eq!(
        get_partial_safe(&[0xffu8; 3], 3).bytes.0,
        [2, 2, 2, 3, 3, 3, 3, 3, 3, 3, 3, 3, 3, 3, 3, 3]
    );
    assert_eq!(get_partial_safe(&[250u8; 16], 16).bytes.0, [10u8; 16]);
    assert_eq!(get_partial_safe(&[], 0).bytes.0, [0u8; 16]);
    assert_eq!(get_partial_safe(&chunk, 0).bytes.0, [0u8; 16]);
}

#[test]
fn masking_path_ignores_the_bytes_past_the_chunk() {
    let mut window = [0u8; 16];
    for i in 0..16 {
        window[i] = (i * 9 + 1) as u8;
    }
    for len in 0..=16usize {
        let expected = get_partial_safe(&window[..len], len);
        assert_eq!(get_partial_unsafe(&window, len), expected);
        let mut other = window;
        for i in len..16 {
            other[i] = !window[i];
        }
        assert_eq!(get_partial_unsafe(&other, len), expected);
        let mut longer = other.to_vec();
        longer.extend_from_slice(&[0xee; 5]);
        assert_eq!(get_partial_unsafe(&longer, len), expected);
    }
    assert_eq!(
        get_partial_unsafe(&window, 3).bytes.0,
        [4, 13, 22, 3, 3, 3, 3, 3, 3, 3, 3, 3, 3, 3, 3, 3]
    );
}

#[test]
fn partial_load_is_the_same_on_both_sides_of_a_page_edge() {
    let memory: Vec<u8> = (0..2 * PAGE_SIZE).map(|i| (i * 31 + 3) as u8).collect();
    for address in PAGE_SIZE - 40..PAGE_SIZE + 8 {
        for len in 0..=16usize {
            let expected = get_partial_safe(&memory[address..address + len], len);
            // The chunk alone, as at the end of an allocation.
            assert_eq!(get_partial(&memory[address..address + len], len, address), expected);
            // The chunk followed by readable memory.
            assert_eq!(get_partial(&memory[address..], len, address), expected);
            // The chunk at the very end of a page.
            assert_eq!(get_partial(&memory[address..PAGE_SIZE.max(address + len)], len, address), expected);
        }
    }
}

#[test]
fn partial_load_does_not_depend_on_the_address() {
    let data: Vec<u8> = (0..24).map(|i| (200 + i) as u8).collect();
    for len in [0usize, 1, 5, 15, 16] {
        let expected = get_partial_safe(&data, len);
        for address in [0usize, 1, 4079, 4080, 4081, 4095, 4096, 8191, usize::MAX - 3, usize::MAX] {
            assert_eq!(get_partial(&data, len, address), expected);
            assert_eq!(get_partial(&data[..len], len, address), expected);
            assert_eq!(<State as AESHasherState>::get_partial(&data, len, address), expected);
        }
    }
}

#[test]
fn equal_content_of_different_length_loads_differently() {
    let zeros = [0u8; 16];
    for a in 0..=16usize {
        for b in 0..a {
            assert_ne!(get_partial_safe(&zeros, a), get_partial_safe(&zeros, b));
        }
        assert_eq!(get_partial_safe(&zeros, a).bytes.0, [a as u8; 16]);
    }
}
