use embedded_storage_sd_spi::cache::zeroed_block;
use embedded_storage_sd_spi::{Action, BlockCache, Error, Event, BLOCK_SIZE};

fn counting_block() -> [u8; BLOCK_SIZE] {
    let mut block = [0u8; BLOCK_SIZE];
    for (k, byte) in block.iter_mut().enumerate() {
        *byte = (k % 256) as u8;
    }
    block
}

fn loaded(index: u32, block: [u8; BLOCK_SIZE]) -> BlockCache {
    let mut cache = BlockCache::new();
    match cache.ensure_loaded::<u8>(index, Event::BlockRead { index, block: Ok(block) }) {
        Action::Done(Ok(())) => cache,
        _ => panic!("the block has arrived"),
    }
}

#[test]
fn new_cache_is_empty() {
    let cache = BlockCache::new();
    assert_eq!(cache.cached_index(), None);
    assert!(!cache.holds(0));
    assert!(!cache.holds(u32::MAX));
}

#[test]
fn zeroed_block_is_512_zero_bytes() {
    let block = zeroed_block();
    assert_eq!(block.len(), 512);
    assert!(block.iter().all(|byte| *byte == 0));
}

#[test]
fn ensure_loaded_asks_for_a_missing_block() {
    let mut cache = BlockCache::new();
    match cache.ensure_loaded::<u8>(7, Event::Start) {
        Action::ReadBlock { index } => assert_eq!(index, 7),
        _ => panic!("an empty cache has to fetch"),
    }
    assert_eq!(cache.cached_index(), None);
    let mut cache = loaded(3, counting_block());
    match cache.ensure_loaded::<u8>(7, Event::Start) {
        Action::ReadBlock { index } => assert_eq!(index, 7),
        _ => panic!("another block has to be fetched"),
    }
    assert_eq!(cache.cached_index(), Some(3));
}

#[test]
fn ensure_loaded_hits_without_traffic() {
    let mut cache = loaded(3, counting_block());
    assert!(cache.holds(3));
    assert!(!cache.holds(4));
    match cache.ensure_loaded::<u8>(3, Event::Start) {
        Action::Done(Ok(())) => {}
        _ => panic!("the block is resident"),
    }
    let mut out = [0u8; 3];
    cache.read(10, &mut out);
    assert_eq!(out, [10, 11, 12]);
}

#[test]
fn ensure_loaded_replaces_the_resident_block() {
    let mut cache = loaded(3, counting_block());
    match cache.ensure_loaded::<u8>(9, Event::BlockRead { index: 9, block: Ok([0x5A; BLOCK_SIZE]) }) {
        Action::Done(Ok(())) => {}
        _ => panic!("the block has arrived"),
    }
    assert_eq!(cache.cached_index(), Some(9));
    let mut out = [0u8; BLOCK_SIZE];
    cache.read(0, &mut out);
    assert_eq!(out, [0x5A; BLOCK_SIZE]);
}

#[test]
fn ensure_loaded_keeps_the_cache_when_the_fetch_fails() {
    let mut cache = loaded(3, counting_block());
    match cache.ensure_loaded::<u8>(9, Event::BlockRead { index: 9, block: Err(42) }) {
        Action::Done(Err(Error::Sd(code))) => assert_eq!(code, 42),
        _ => panic!("the fetch has failed"),
    }
    assert_eq!(cache.cached_index(), Some(3));
    let mut out = [0u8; 2];
    cache.read(510, &mut out);
    assert_eq!(out, [254, 255]);
}

#[test]
fn ensure_loaded_ignores_an_answer_for_another_block() {
    let mut cache = BlockCache::new();
    match cache.ensure_loaded::<u8>(9, Event::BlockRead { index: 8, block: Ok([1; BLOCK_SIZE]) }) {
        Action::ReadBlock { index } => assert_eq!(index, 9),
        _ => panic!("block 9 is still missing"),
    }
    assert_eq!(cache.cached_index(), None);
    match cache.ensure_loaded::<u8>(9, Event::BlockWritten { index: 9, outcome: Ok(()) }) {
        Action::ReadBlock { index } => assert_eq!(index, 9),
        _ => panic!("block 9 is still missing"),
    }
}

#[test]
fn write_lays_data_over_the_block() {
    let mut cache = loaded(1, counting_block());
    cache.write(100, &[0xF0, 0xF1, 0xF2]);
    let mut out = [0u8; BLOCK_SIZE];
    cache.read(0, &mut out);
    let mut expected = counting_block();
    expected[100] = 0xF0;
    expected[101] = 0xF1;
    expected[102] = 0xF2;
    assert_eq!(out, expected);
    assert_eq!(cache.cached_index(), Some(1));
    cache.write(0, &[]);
    cache.write(512, &[]);
    cache.read(0, &mut out);
    assert_eq!(out, expected);
}

#[test]
fn write_back_hands_out_the_resident_block() {
    let mut cache = loaded(1, counting_block());
    cache.write(0, &[9, 9]);
    match cache.write_back::<u8>(1, Event::Start) {
        Action::WriteBlock { index, data } => {
            assert_eq!(index, 1);
            let mut expected = counting_block();
            expected[0] = 9;
            expected[1] = 9;
            assert_eq!(data, expected);
        }
        _ => panic!("the block is to be written"),
    }
    assert_eq!(cache.cached_index(), Some(1));
}

#[test]
fn write_back_ends_with_the_outcome_of_the_write() {
    let mut cache = loaded(1, counting_block());
    match cache.write_back::<u8>(1, Event::BlockWritten { index: 1, outcome: Ok(()) }) {
        Action::Done(Ok(())) => {}
        _ => panic!("the block has been written"),
    }
    assert_eq!(cache.cached_index(), Some(1));
    match cache.write_back::<u8>(1, Event::BlockWritten { index: 2, outcome: Err(5) }) {
        Action::WriteBlock { index, .. } => assert_eq!(index, 1),
        _ => panic!("an answer for another block is no news"),
    }
    assert_eq!(cache.cached_index(), Some(1));
    match cache.write_back::<u8>(1, Event::BlockWritten { index: 1, outcome: Err(5) }) {
        Action::Done(Err(Error::Sd(code))) => assert_eq!(code, 5),
        _ => panic!("the write has failed"),
    }
    assert_eq!(cache.cached_index(), None);
}

#[test]
fn invalidate_empties_the_cache() {
    let mut cache = loaded(6, counting_block());
    cache.invalidate();
    assert_eq!(cache.cached_index(), None);
    assert!(!cache.holds(6));
    cache.invalidate();
    assert_eq!(cache.cached_index(), None);
}
