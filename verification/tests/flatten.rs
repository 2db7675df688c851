use channels::flatten::flatten;

#[test]
fn front_iteration_concatenates_the_groups() {
    let mut it = flatten(vec![vec![1, 2], vec![], vec![3], vec![4, 5]]);

    assert_eq!(Some(1), it.next());
    assert_eq!(Some(2), it.next());
    assert_eq!(Some(3), it.next());
    assert_eq!(Some(4), it.next());
    assert_eq!(Some(5), it.next());
    assert_eq!(None, it.next());
    assert_eq!(None, it.next());
}

#[test]
fn back_iteration_reverses_the_concatenation() {
    let mut it = flatten(vec![vec![1, 2], vec![], vec![3], vec![4, 5]]);

    assert_eq!(Some(5), it.next_back());
    assert_eq!(Some(4), it.next_back());
    assert_eq!(Some(3), it.next_back());
    assert_eq!(Some(2), it.next_back());
    assert_eq!(Some(1), it.next_back());
    assert_eq!(None, it.next_back());
}

#[test]
fn the_two_ends_meet_without_repeating_a_value() {
    let mut it = flatten(vec![vec![1, 2], vec![3, 4]]);

    assert_eq!(Some(1), it.next());
    assert_eq!(Some(4), it.next_back());
    assert_eq!(Some(2), it.next());
    assert_eq!(Some(3), it.next_back());
    assert_eq!(None, it.next());
    assert_eq!(None, it.next_back());
}

#[test]
fn the_front_end_finishes_the_back_group() {
    let mut it = flatten(vec![vec![1, 2, 3]]);

    assert_eq!(Some(3), it.next_back());
    assert_eq!(Some(1), it.next());
    assert_eq!(Some(2), it.next());
    assert_eq!(None, it.next());
}

#[test]
fn empty_input_yields_nothing() {
    let mut it = flatten(Vec::<Vec<u8>>::new());

    assert_eq!(None, it.next());
    assert_eq!(None, it.next_back());
}
