use electra_chain::cell::{CellArena, CellError, Mutable};

#[test]
fn cell_reads_back_the_stored_value() {
    let mut arena: CellArena<u64> = CellArena::new();
    let cell = Mutable::new(&mut arena, 17);
    assert_eq!(arena.borrow(&cell), Ok(&17));
}

#[test]
fn cloned_handle_shares_the_slot() {
    let mut arena: CellArena<u64> = CellArena::new();
    let cell = Mutable::new(&mut arena, 1);
    let alias = cell;
    assert!(arena.checkout(&alias).is_ok());
    assert_eq!(arena.commit(&cell, 2), Ok(()));
    assert_eq!(arena.borrow(&alias), Ok(&2));
}

#[test]
fn checkout_blocks_reads_until_commit() {
    let mut arena: CellArena<u64> = CellArena::new();
    let cell = Mutable::new(&mut arena, 5);
    assert!(arena.checkout(&cell).is_ok());
    assert_eq!(arena.borrow(&cell), Err(CellError::WriteHeld));
    assert_eq!(arena.commit(&cell, 6), Ok(()));
    assert_eq!(arena.borrow(&cell), Ok(&6));
}

#[test]
fn second_checkout_while_one_is_live_is_refused() {
    let mut arena: CellArena<u64> = CellArena::new();
    let cell = Mutable::new(&mut arena, 5);
    assert!(arena.checkout(&cell).is_ok());
    assert_eq!(arena.checkout(&cell), Err(CellError::WriteHeld));
}

#[test]
fn commit_without_checkout_is_refused() {
    let mut arena: CellArena<u64> = CellArena::new();
    let cell = Mutable::new(&mut arena, 5);
    assert_eq!(arena.commit(&cell, 6), Err(CellError::NotHeld));
    assert_eq!(arena.borrow(&cell), Ok(&5));
}

#[test]
fn handle_from_another_arena_is_unknown() {
    let mut full: CellArena<u64> = CellArena::new();
    let cell = Mutable::new(&mut full, 5);
    let mut empty: CellArena<u64> = CellArena::new();
    assert_eq!(empty.borrow(&cell), Err(CellError::UnknownHandle));
    assert_eq!(empty.checkout(&cell), Err(CellError::UnknownHandle));
    assert_eq!(empty.commit(&cell, 6), Err(CellError::UnknownHandle));
    assert_eq!(full.borrow(&cell), Ok(&5));
}

#[test]
fn a_failed_commit_leaves_the_slot_unchanged() {
    let mut arena: CellArena<u64> = CellArena::new();
    let cell = Mutable::new(&mut arena, 5);
    assert_eq!(arena.commit(&cell, 99), Err(CellError::NotHeld));
    assert_eq!(arena.borrow(&cell), Ok(&5));
}

#[test]
fn wrapped_index_on_arrays_counts_back_from_the_end() {
    let mut arena: CellArena<[u8; 4]> = CellArena::new();
    let cell = Mutable::new(&mut arena, [1, 2, 3, 4]);
    assert_eq!(cell.wrapped_index(0), 0);
    assert_eq!(cell.wrapped_index(3), 3);
    assert_eq!(cell.wrapped_index(-1), 3);
    assert_eq!(cell.wrapped_index(-4), 0);
}

#[test]
fn wrapped_index_on_vectors_counts_back_from_the_end() {
    let mut arena: CellArena<Vec<u8>> = CellArena::new();
    let cell = Mutable::new(&mut arena, vec![1, 2, 3]);
    assert_eq!(cell.wrapped_index(&arena, 2), 2);
    assert_eq!(cell.wrapped_index(&arena, -1), 2);
    assert_eq!(cell.wrapped_index(&arena, -3), 0);
}
