use channels::cells::Cell;
use channels::cells::RefCell;

#[test]
fn a_cell_moves_values_in_and_out() {
    let mut cell = Cell::new(1);

    assert_eq!(1, cell.get());
    cell.set(2);
    assert_eq!(2, cell.get());
}

#[test]
fn shared_grants_stack_and_unwind() {
    let mut cell = RefCell::new(5);

    let first = cell.borrow().unwrap();
    let second = cell.borrow().unwrap();
    assert_eq!(5, *cell.read());
    // No exclusive grant while shared ones are out.
    assert!(cell.borrowMut().is_none());
    cell.release_shared(second);
    // One shared grant is still live: exclusive access stays refused.
    assert!(cell.borrowMut().is_none());
    cell.release_shared(first);
    // All shared grants returned: exclusive access is possible again.
    assert!(cell.borrowMut().is_some());
}

#[test]
fn an_exclusive_grant_blocks_every_other_grant() {
    let mut cell = RefCell::new(5);

    let grant = cell.borrowMut().unwrap();
    assert!(cell.borrow().is_none());
    cell.write(&grant, 6);
    assert_eq!(6, *cell.read());
    cell.release_exclusive(grant);
    assert!(cell.borrow().is_some());
}
