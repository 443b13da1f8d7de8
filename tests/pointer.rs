use cells::{Pointer, CELL_PIXELS, REACH_PIXELS};

fn over_cell_five_five() -> Pointer {
    Pointer::new(44, 44, true)
}

#[test]
fn pixel_constants_fill_the_canvas() {
    assert_eq!(CELL_PIXELS, 8);
    assert_eq!(REACH_PIXELS, 32);
    assert_eq!(100 * CELL_PIXELS, 800);
}

#[test]
fn held_pointer_reaches_the_cell_under_it() {
    assert!(over_cell_five_five().reaches(5, 5));
}

#[test]
fn reach_is_a_strict_radius() {
    let p = over_cell_five_five();
    // centre of column 8 is 24 pixels away, of column 9 exactly 32
    assert!(p.reaches(8, 5));
    assert!(!p.reaches(9, 5));
    assert!(p.reaches(5, 2));
    assert!(!p.reaches(5, 1));
    assert!(p.reaches(2, 5));
    assert!(!p.reaches(1, 5));
}

#[test]
fn reach_is_euclidean() {
    let p = over_cell_five_five();
    // 16 * 16 * 2 = 512 < 1024
    assert!(p.reaches(7, 7));
    // 24 * 24 * 2 = 1152 >= 1024
    assert!(!p.reaches(8, 8));
    assert!(!p.reaches(2, 2));
}

#[test]
fn released_pointer_reaches_nothing() {
    let p = Pointer::new(44, 44, false);
    assert!(!p.reaches(5, 5));
    assert!(!p.reaches(6, 5));
}

#[test]
fn pointer_far_off_canvas_reaches_nothing() {
    let p = Pointer::new(i64::MIN, i64::MAX, true);
    assert!(!p.reaches(0, 0));
    assert!(!p.reaches(usize::MAX, usize::MAX));
}
