use cells::Cell;

#[test]
fn new_cell_is_dead() {
    assert!(!Cell::new().alive);
}

#[test]
fn update_sets_state_unconditionally() {
    let mut c = Cell::new();
    c.update(true);
    assert!(c.alive);
    c.update(true);
    assert!(c.alive);
    c.update(false);
    assert!(!c.alive);
}
