use cells::next_state;

#[test]
fn live_cell_with_under_two_neighbors_dies() {
    assert!(!next_state(true, 0));
    assert!(!next_state(true, 1));
}

#[test]
fn live_cell_with_two_or_three_neighbors_lives() {
    assert!(next_state(true, 2));
    assert!(next_state(true, 3));
}

#[test]
fn live_cell_with_four_or_more_neighbors_dies() {
    for n in 4..=8 {
        assert!(!next_state(true, n));
    }
}

#[test]
fn dead_cell_with_three_neighbors_is_born() {
    assert!(next_state(false, 3));
}

#[test]
fn dead_cell_with_other_counts_stays_dead() {
    for n in [0u8, 1, 2, 4, 5, 6, 7, 8] {
        assert!(!next_state(false, n));
    }
}
