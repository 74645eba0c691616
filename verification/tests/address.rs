use embedded_storage_sd_spi::{address_to_block, fits_in_one_block, to_block_index, BLOCK_SIZE};

#[test]
fn block_size_is_512() {
    assert_eq!(BLOCK_SIZE, 512);
}

#[test]
fn address_to_block_divides_by_the_block_size() {
    assert_eq!(address_to_block(0), 0);
    assert_eq!(address_to_block(511), 0);
    assert_eq!(address_to_block(512), 1);
    assert_eq!(address_to_block(1023), 1);
    assert_eq!(address_to_block(1024), 2);
    assert_eq!(address_to_block(10_240), 20);
    assert_eq!(address_to_block(u32::MAX), 8_388_607);
}

#[test]
fn to_block_index_splits_the_offset() {
    assert_eq!(to_block_index(0), (0, 0));
    assert_eq!(to_block_index(10), (0, 10));
    assert_eq!(to_block_index(511), (0, 511));
    assert_eq!(to_block_index(512), (1, 0));
    assert_eq!(to_block_index(1536 + 17), (3, 17));
    assert_eq!(to_block_index(u32::MAX), (8_388_607, 511));
}

#[test]
fn block_index_and_offset_give_the_address_back() {
    for offset in [0u32, 1, 511, 512, 513, 4095, 4096, 123_456_789, u32::MAX - 1, u32::MAX] {
        let (index, in_block) = to_block_index(offset);
        assert!(in_block < BLOCK_SIZE);
        assert_eq!(index as u64 * 512 + in_block as u64, offset as u64);
        assert_eq!(index, address_to_block(offset));
    }
}

#[test]
fn fits_in_one_block_up_to_the_block_boundary() {
    assert!(fits_in_one_block(0, 0));
    assert!(fits_in_one_block(0, 512));
    assert!(!fits_in_one_block(0, 513));
    assert!(fits_in_one_block(1, 511));
    assert!(!fits_in_one_block(1, 512));
    assert!(fits_in_one_block(511, 1));
    assert!(!fits_in_one_block(511, 2));
    assert!(fits_in_one_block(512 + 10, 4));
    assert!(fits_in_one_block(1023, 0));
    assert!(fits_in_one_block(u32::MAX, 1));
    assert!(!fits_in_one_block(u32::MAX, 2));
    assert!(!fits_in_one_block(0, usize::MAX));
    assert!(!fits_in_one_block(300, usize::MAX));
}
