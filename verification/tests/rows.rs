use cadenza_shell::rows::{RowOp, plan_rows};

#[test]
fn stale_rows_go_from_the_last_to_the_first() {
    let plan = plan_rows(&vec![Some(1), Some(2), Some(3), None], &vec![2]);
    assert_eq!(
        plan,
        vec![RowOp::Remove(2), RowOp::Remove(0), RowOp::Update { row: 0, item: 0 }]
    );
}

#[test]
fn new_items_get_rows_and_old_ones_are_updated_in_place() {
    let plan = plan_rows(&vec![Some(10), Some(20)], &vec![30, 20, 10]);
    assert_eq!(
        plan,
        vec![
            RowOp::Append(0),
            RowOp::Update { row: 1, item: 1 },
            RowOp::Update { row: 0, item: 2 },
        ]
    );
}

#[test]
fn repeated_items_share_the_row_made_for_the_first() {
    let plan = plan_rows(&vec![], &vec![5, 5]);
    assert_eq!(plan, vec![RowOp::Append(0), RowOp::Update { row: 0, item: 1 }]);
}
