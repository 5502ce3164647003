use proxy_stats::store::{first_count, first_id, first_sum, window_start, Crate, StoreError};

#[test]
fn first_count_of_no_rows_is_zero() {
    assert_eq!(first_count(&vec![]), Ok(0));
}

#[test]
fn first_count_takes_the_first_row() {
    assert_eq!(first_count(&vec![7, 9]), Ok(7));
    assert_eq!(first_count(&vec![2147483647]), Ok(2147483647));
    assert_eq!(first_count(&vec![-2147483648]), Ok(-2147483648));
}

#[test]
fn first_count_reports_a_number_that_does_not_fit() {
    assert_eq!(first_count(&vec![2147483648]), Err(StoreError::OutOfRange(2147483648)));
    assert_eq!(first_count(&vec![-2147483649, 1]), Err(StoreError::OutOfRange(-2147483649)));
    assert_eq!(first_count(&vec![i64::MAX]), Err(StoreError::OutOfRange(i64::MAX)));
}

#[test]
fn first_sum_of_no_rows_is_zero() {
    assert_eq!(first_sum(&vec![]), 0);
}

#[test]
fn first_sum_takes_the_first_row() {
    assert_eq!(first_sum(&vec![4096, 1]), 4096);
    assert_eq!(first_sum(&vec![i64::MIN]), i64::MIN);
}

#[test]
fn first_id_is_the_first_row_if_any() {
    assert_eq!(first_id(&vec![]), None);
    assert_eq!(first_id(&vec![3]), Some(3));
    assert_eq!(first_id(&vec![5, 3]), Some(5));
}

#[test]
fn window_start_is_the_difference() {
    assert_eq!(window_start(1000, 500), 500);
    assert_eq!(window_start(1000, 0), 1000);
    assert_eq!(window_start(1000, -24), 1024);
    assert_eq!(window_start(0, 86400), -86400);
}

#[test]
fn window_start_stops_at_the_ends_of_the_clock() {
    assert_eq!(window_start(i64::MIN, 1), i64::MIN);
    assert_eq!(window_start(i64::MIN + 5, 5), i64::MIN);
    assert_eq!(window_start(-2, i64::MAX), i64::MIN);
    assert_eq!(window_start(-1, i64::MAX), i64::MIN);
    assert_eq!(window_start(0, i64::MAX), -i64::MAX);
    assert_eq!(window_start(i64::MAX, -1), i64::MAX);
    assert_eq!(window_start(0, i64::MIN), i64::MAX);
    assert_eq!(window_start(-1, i64::MIN), i64::MAX);
    assert_eq!(window_start(-2, i64::MIN), i64::MAX - 1);
}

#[test]
fn from_rows_keeps_each_row_in_place() {
    let rows = vec![(4, String::from("serde")), (1, String::from("rand")), (9, String::new())];
    let crates = Crate::from_rows(&rows);
    assert_eq!(crates.len(), 3);
    assert_eq!(crates[0].id(), 4);
    assert_eq!(crates[0].name(), "serde");
    assert_eq!(crates[1].id(), 1);
    assert_eq!(crates[1].name(), "rand");
    assert_eq!(crates[2].id(), 9);
    assert_eq!(crates[2].name(), "");
    assert_eq!(Crate::from_rows(&vec![]).len(), 0);
}

#[test]
fn window_bounds_are_start_then_end() {
    assert_eq!(proxy_stats::store::window_bounds(1000, 400), vec![600, 1000]);
    assert_eq!(proxy_stats::store::window_bounds(-5, i64::MAX), vec![i64::MIN, -5]);
    assert_eq!(proxy_stats::store::window_bounds(7, 0), vec![7, 7]);
}

#[test]
fn require_row_reports_a_missing_row() {
    assert_eq!(proxy_stats::store::require_row(Some(12)), Ok(12));
    assert_eq!(proxy_stats::store::require_row(Some(-1)), Ok(-1));
    assert_eq!(proxy_stats::store::require_row(None), Err(StoreError::Missing));
}
