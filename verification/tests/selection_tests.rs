use meal_tracker::select::{advance, retreat};

#[test]
fn advance_then_retreat_round_trips() {
    for count in 1..6usize {
        for i in 0..count {
            assert_eq!(retreat(advance(Some(i), count), count), Some(i));
        }
    }
}

#[test]
fn empty_table_selects_nothing() {
    assert_eq!(advance(None, 0), None);
    assert_eq!(advance(Some(3), 0), None);
    assert_eq!(retreat(None, 0), None);
    assert_eq!(retreat(Some(0), 0), None);
}

#[test]
fn both_directions_wrap() {
    assert_eq!(advance(Some(2), 3), Some(0));
    assert_eq!(retreat(Some(0), 3), Some(2));
    assert_eq!(advance(Some(0), 3), Some(1));
    assert_eq!(retreat(Some(2), 3), Some(1));
}

#[test]
fn no_selection_becomes_first_row() {
    assert_eq!(advance(None, 4), Some(0));
    assert_eq!(retreat(None, 4), Some(0));
}
