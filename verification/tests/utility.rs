use ixy_ci::utility::{retry, Retry};

#[test]
fn success_is_not_retried() {
    assert_eq!(retry(10, 1, false), Retry::Finish);
    assert_eq!(retry(0, 1, false), Retry::Finish);
}

#[test]
fn failure_is_retried_while_retries_are_left() {
    assert_eq!(retry(10, 1, true), Retry::Again);
    assert_eq!(retry(10, 10, true), Retry::Again);
    assert_eq!(retry(10, 11, true), Retry::Finish);
}

#[test]
fn without_retries_one_attempt_is_made() {
    assert_eq!(retry(0, 1, true), Retry::Finish);
}

#[test]
fn operation_that_always_fails_is_tried_once_more_than_its_retries() {
    let mut attempts = 1;
    while retry(3, attempts, true) == Retry::Again {
        attempts += 1;
    }
    assert_eq!(attempts, 4);
}
