use aarch64_boot::descriptor::{decode, TranslationDescriptor, PAGE, TABLE};
use aarch64_boot::page_table::{
    BuildError, PageTableBuilder, ADDRESS_LIMIT, ENTRIES, GRANULE,
};

const ARENA: u64 = 0x8008_0000;

fn three_tables() -> (PageTableBuilder, usize, usize, usize) {
    let mut b = PageTableBuilder::new(ARENA, 8).unwrap();
    let root = b.allocate(1).unwrap();
    let middle = b.allocate(2).unwrap();
    let leaf = b.allocate(3).unwrap();
    (b, root, middle, leaf)
}

#[test]
fn sizes() {
    assert_eq!(ENTRIES, 512);
    assert_eq!(GRANULE, 4096);
    assert_eq!(ADDRESS_LIMIT, 1u64 << 48);
}

#[test]
fn arena_must_be_aligned_and_below_the_limit() {
    assert!(PageTableBuilder::new(0x1000, 1).is_ok());
    assert!(PageTableBuilder::new(0, 0).is_ok());
    assert_eq!(PageTableBuilder::new(0x1001, 1).err(), Some(BuildError::BadArena));
    assert_eq!(PageTableBuilder::new(0x800, 1).err(), Some(BuildError::BadArena));
    assert_eq!(PageTableBuilder::new(ADDRESS_LIMIT, 0).err(), Some(BuildError::BadArena));
    assert!(PageTableBuilder::new(ADDRESS_LIMIT - 4096, 1).is_ok());
    assert_eq!(
        PageTableBuilder::new(ADDRESS_LIMIT - 4096, 2).err(),
        Some(BuildError::BadArena)
    );
}

#[test]
fn allocate_gives_zeroed_aligned_tables_in_order() {
    let (b, root, middle, leaf) = three_tables();
    assert_eq!((root, middle, leaf), (0, 1, 2));
    assert_eq!(b.len(), 3);
    assert_eq!(b.base_of(root), ARENA);
    assert_eq!(b.base_of(middle), ARENA + 4096);
    assert_eq!(b.base_of(leaf), ARENA + 8192);
    assert_eq!(b.level_of(root), 1);
    assert_eq!(b.level_of(middle), 2);
    assert_eq!(b.level_of(leaf), 3);
    for table in [root, middle, leaf] {
        assert_eq!(b.base_of(table) % 4096, 0);
        for index in 0..512 {
            assert_eq!(b.entry(table, index), 0);
        }
    }
}

#[test]
fn allocate_refuses_bad_levels() {
    let mut b = PageTableBuilder::new(ARENA, 8).unwrap();
    assert_eq!(b.allocate(0), Err(BuildError::BadLevel));
    assert_eq!(b.allocate(4), Err(BuildError::BadLevel));
    assert_eq!(b.allocate(255), Err(BuildError::BadLevel));
    assert_eq!(b.len(), 0);
}

#[test]
fn allocate_refuses_when_the_arena_is_full() {
    let mut b = PageTableBuilder::new(ARENA, 2).unwrap();
    assert_eq!(b.allocate(1), Ok(0));
    assert_eq!(b.allocate(2), Ok(1));
    assert_eq!(b.allocate(3), Err(BuildError::OutOfTables));
    assert_eq!(b.len(), 2);
}

#[test]
fn link_writes_the_table_descriptor_of_the_child() {
    let (mut b, root, middle, _leaf) = three_tables();
    assert_eq!(b.link_table(root, 5, middle), Ok(()));
    assert_eq!(b.entry(root, 5), (ARENA + 4096) | 0b11);
    assert_eq!(b.entry(root, 4), 0);
    assert_eq!(b.entry(root, 6), 0);
    assert_eq!(b.entry(middle, 5), 0);
}

#[test]
fn link_refuses_unknown_tables() {
    let (mut b, root, middle, _leaf) = three_tables();
    assert_eq!(b.link_table(3, 0, middle), Err(BuildError::UnknownTable));
    assert_eq!(b.link_table(root, 0, 3), Err(BuildError::UnknownTable));
    assert_eq!(b.link_table(7, 0, 9), Err(BuildError::UnknownTable));
    assert_eq!(b.entry(root, 0), 0);
}

#[test]
fn link_refuses_wrong_levels() {
    let (mut b, root, middle, leaf) = three_tables();
    assert_eq!(b.link_table(root, 0, leaf), Err(BuildError::LevelMismatch));
    assert_eq!(b.link_table(middle, 0, root), Err(BuildError::LevelMismatch));
    assert_eq!(b.link_table(root, 0, root), Err(BuildError::LevelMismatch));
    assert_eq!(b.link_table(leaf, 0, leaf), Err(BuildError::LevelMismatch));
    for table in [root, middle, leaf] {
        assert_eq!(b.entry(table, 0), 0);
    }
}

#[test]
fn map_writes_the_page_descriptor() {
    let (mut b, _root, _middle, leaf) = three_tables();
    assert_eq!(b.map_page(leaf, 1, 0x8100_0000, 0x71), Ok(()));
    assert_eq!(b.entry(leaf, 1), 0x8100_0713);
    assert_eq!(b.entry(leaf, 0), 0);
    assert_eq!(b.entry(leaf, 2), 0);
}

#[test]
fn map_refuses_bad_requests() {
    let (mut b, root, middle, leaf) = three_tables();
    assert_eq!(b.map_page(9, 0, 0x8000_0000, 0x71), Err(BuildError::UnknownTable));
    assert_eq!(b.map_page(root, 0, 0x8000_0000, 0x71), Err(BuildError::NotLeaf));
    assert_eq!(b.map_page(middle, 0, 0x8000_0000, 0x71), Err(BuildError::NotLeaf));
    assert_eq!(b.map_page(leaf, 0, 0x8000_0800, 0x71), Err(BuildError::BadFrame));
    assert_eq!(b.map_page(leaf, 0, 1u64 << 48, 0x71), Err(BuildError::BadFrame));
    assert_eq!(b.entry(leaf, 0), 0);
    assert_eq!(b.entry(root, 0), 0);
}

#[test]
fn linkage_resolves_second_frame() {
    let f1: u64 = 0x8000_0000;
    let f2: u64 = 0x8100_0000;
    let (mut b, root, middle, leaf) = three_tables();
    b.link_table(root, 0, middle).unwrap();
    b.link_table(middle, 0, leaf).unwrap();
    b.map_page(leaf, 0, f1, 0x71).unwrap();
    b.map_page(leaf, 1, f2, 0x71).unwrap();
    assert_eq!(b.resolve(root, 0, 0, 1), Some(f2));
    assert_eq!(b.resolve(root, 0, 0, 0), Some(f1));
    match decode(b.entry(root, 0), 1) {
        TranslationDescriptor::TableDescriptor { tag, next_level_base, .. } => {
            assert_eq!(tag, TABLE);
            assert_eq!(next_level_base, b.base_of(middle));
        }
        other => panic!("not a table descriptor: {:?}", other),
    }
    for index in [0usize, 1] {
        match decode(b.entry(leaf, index), 3) {
            TranslationDescriptor::PageDescriptor { tag, .. } => assert_eq!(tag, PAGE),
            other => panic!("not a page descriptor: {:?}", other),
        }
    }
    assert_eq!(b.resolve(root, 0, 0, 2), None);
    assert_eq!(b.resolve(root, 0, 1, 0), None);
    assert_eq!(b.resolve(root, 1, 0, 0), None);
    assert_eq!(b.resolve(middle, 0, 0, 0), None);
    assert_eq!(b.resolve(9, 0, 0, 0), None);
}

#[test]
fn resolve_at_other_indices() {
    let (mut b, root, middle, leaf) = three_tables();
    b.link_table(root, 511, middle).unwrap();
    b.link_table(middle, 7, leaf).unwrap();
    b.map_page(leaf, 300, 0x1234_5000, 0).unwrap();
    assert_eq!(b.resolve(root, 511, 7, 300), Some(0x1234_5000));
    assert_eq!(b.resolve(root, 511, 7, 299), None);
    assert_eq!(b.resolve(root, 0, 7, 300), None);
}

#[test]
fn resolve_follows_addresses_not_allocation_order() {
    let mut b = PageTableBuilder::new(ARENA, 8).unwrap();
    let leaf = b.allocate(3).unwrap();
    let other_leaf = b.allocate(3).unwrap();
    let middle = b.allocate(2).unwrap();
    let root = b.allocate(1).unwrap();
    b.link_table(root, 2, middle).unwrap();
    b.link_table(middle, 3, other_leaf).unwrap();
    b.map_page(other_leaf, 4, 0xa000, 1).unwrap();
    b.map_page(leaf, 4, 0xb000, 1).unwrap();
    assert_eq!(b.resolve(root, 2, 3, 4), Some(0xa000));
    assert!(b.maps(root, 0xa000));
    assert!(!b.maps(root, 0xb000));
}

#[test]
fn resolve_stops_at_entries_that_are_not_tables() {
    let (mut b, root, middle, leaf) = three_tables();
    b.link_table(root, 0, middle).unwrap();
    b.map_page(leaf, 0, 0x8000_0000, 0x71).unwrap();
    assert_eq!(b.resolve(root, 0, 0, 0), None);
    assert!(!b.maps(root, 0x8000_0000));
}

#[test]
fn table_lookup_by_address() {
    let (b, _root, _middle, _leaf) = three_tables();
    assert_eq!(b.table_at(ARENA), Some(0));
    assert_eq!(b.table_at(ARENA + 4096), Some(1));
    assert_eq!(b.table_at(ARENA + 8192), Some(2));
    assert_eq!(b.table_at(ARENA + 12288), None);
    assert_eq!(b.table_at(ARENA + 8), None);
    assert_eq!(b.table_at(ARENA - 4096), None);
    assert_eq!(b.next_table((ARENA + 4096) | 3, 2), Some(1));
    assert_eq!(b.next_table((ARENA + 4096) | 3, 3), None);
    assert_eq!(b.next_table((ARENA + 4096) | 1, 2), None);
    assert_eq!(b.next_table(0, 2), None);
}

#[test]
fn seal_accepts_a_hierarchy_that_maps_the_code() {
    let (mut b, root, middle, leaf) = three_tables();
    b.link_table(root, 0, middle).unwrap();
    b.link_table(middle, 0, leaf).unwrap();
    b.map_page(leaf, 0, 0x8000_0000, 0x71).unwrap();
    b.map_page(leaf, 1, 0x8100_0000, 0x71).unwrap();
    let space = b.seal(root, 0x8000_0abc).ok().unwrap();
    assert_eq!(space.root_base(), ARENA);
    assert_eq!(space.arena_base(), ARENA);
    assert_eq!(space.resolve(0, 0, 0), Some(0x8000_0000));
    assert_eq!(space.resolve(0, 0, 1), Some(0x8100_0000));
    assert_eq!(space.resolve(0, 0, 2), None);
    assert_eq!(space.image().len(), 3 * 512);
    assert_eq!(space.image()[0], (ARENA + 4096) | 3);
    assert_eq!(space.image()[512], (ARENA + 8192) | 3);
    assert_eq!(space.image()[1024], 0x8000_0713);
    assert_eq!(space.image()[1025], 0x8100_0713);
    assert_eq!(space.entry(2, 1), 0x8100_0713);
    assert_eq!(space.image().iter().filter(|w| **w != 0).count(), 4);
}

#[test]
fn seal_accepts_code_in_the_last_byte_of_a_frame() {
    let (mut b, root, middle, leaf) = three_tables();
    b.link_table(root, 0, middle).unwrap();
    b.link_table(middle, 0, leaf).unwrap();
    b.map_page(leaf, 1, 0x8100_0000, 0x71).unwrap();
    assert!(b.seal(root, 0x8100_0fff).is_ok());
}

#[test]
fn seal_rejects_a_hierarchy_without_the_code_frame() {
    let (mut b, root, middle, leaf) = three_tables();
    b.link_table(root, 0, middle).unwrap();
    b.link_table(middle, 0, leaf).unwrap();
    b.map_page(leaf, 0, 0x8000_0000, 0x71).unwrap();
    b.map_page(leaf, 1, 0x8100_0000, 0x71).unwrap();
    assert_eq!(b.seal(root, 0x8000_1000).err(), Some(BuildError::CodeUnmapped));
}

#[test]
fn seal_rejects_an_empty_hierarchy() {
    let (b, root, _middle, _leaf) = three_tables();
    assert_eq!(b.seal(root, 0).err(), Some(BuildError::CodeUnmapped));
}

#[test]
fn seal_rejects_a_frame_that_no_walk_reaches() {
    let (mut b, root, _middle, leaf) = three_tables();
    b.map_page(leaf, 0, 0x8000_0000, 0x71).unwrap();
    assert_eq!(b.seal(root, 0x8000_0000).err(), Some(BuildError::CodeUnmapped));
}

#[test]
fn seal_rejects_bad_roots() {
    let (b, _root, middle, _leaf) = three_tables();
    assert_eq!(b.seal(middle, 0).err(), Some(BuildError::NotRoot));
    let (b, _root, _middle, _leaf) = three_tables();
    assert_eq!(b.seal(3, 0).err(), Some(BuildError::UnknownTable));
}
