use nanometers::setting::{insert_row_index, move_item, Location};

fn sample() -> Vec<Vec<u32>> {
    vec![vec![1, 2, 3], vec![4, 5]]
}

#[test]
fn move_down_within_column() {
    let mut s = sample();
    // dropping item 1 below item 2 (insert position 2) puts it after 2
    move_item(&mut s, Location { col: 0, row: 0 }, Location { col: 0, row: 2 });
    assert_eq!(s, vec![vec![2, 1, 3], vec![4, 5]]);
}

#[test]
fn move_up_within_column() {
    let mut s = sample();
    move_item(&mut s, Location { col: 0, row: 2 }, Location { col: 0, row: 0 });
    assert_eq!(s, vec![vec![3, 1, 2], vec![4, 5]]);
}

#[test]
fn move_onto_itself_is_identity() {
    let mut s = sample();
    move_item(&mut s, Location { col: 1, row: 1 }, Location { col: 1, row: 1 });
    assert_eq!(s, sample());
}

#[test]
fn move_across_columns() {
    let mut s = sample();
    move_item(&mut s, Location { col: 0, row: 1 }, Location { col: 1, row: 1 });
    assert_eq!(s, vec![vec![1, 3], vec![4, 2, 5]]);
}

#[test]
fn drop_on_column_goes_last() {
    let mut s = sample();
    move_item(&mut s, Location { col: 0, row: 0 }, Location { col: 1, row: usize::MAX });
    assert_eq!(s, vec![vec![2, 3], vec![4, 5, 1]]);
    let mut s = sample();
    move_item(&mut s, Location { col: 0, row: 0 }, Location { col: 0, row: usize::MAX });
    assert_eq!(s, vec![vec![2, 3, 1], vec![4, 5]]);
}

#[test]
fn move_into_empty_column() {
    let mut s = vec![vec![7u32], vec![]];
    move_item(&mut s, Location { col: 0, row: 0 }, Location { col: 1, row: usize::MAX });
    assert_eq!(s, vec![vec![], vec![7]]);
}

#[test]
fn insert_rows() {
    assert_eq!(insert_row_index(3, true, false), 3);
    assert_eq!(insert_row_index(3, false, true), 3);
    assert_eq!(insert_row_index(3, false, false), 4);
}

#[test]
fn move_keeps_all_items() {
    let mut s = vec![vec![1u32, 2, 2], vec![3], vec![]];
    move_item(&mut s, Location { col: 0, row: 2 }, Location { col: 2, row: 0 });
    let mut all: Vec<u32> = s.iter().flatten().copied().collect();
    all.sort();
    assert_eq!(all, vec![1, 2, 2, 3]);
    assert_eq!(s, vec![vec![1, 2], vec![3], vec![2]]);
}
