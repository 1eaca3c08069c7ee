use sync_point::app::{App, TimeoutError};

#[test]
fn app_test_app_default_timeout() {
    let app = App::new(App::DEFAULT_TIMEOUT).unwrap();
    assert_eq!(app.timeout_secs, 10);
}

#[test]
fn timeout_bounds_are_inclusive() {
    assert_eq!(App::validate_timeout(5), Ok(()));
    assert_eq!(App::validate_timeout(300), Ok(()));
    assert_eq!(App::validate_timeout(20), Ok(()));
    assert_eq!(App::validate_timeout(4), Err(TimeoutError::TooShort));
    assert_eq!(App::validate_timeout(0), Err(TimeoutError::TooShort));
    assert_eq!(App::validate_timeout(301), Err(TimeoutError::TooLong));
    assert_eq!(App::validate_timeout(u64::MAX), Err(TimeoutError::TooLong));
}

#[test]
fn new_app_keeps_timeout_or_refuses() {
    assert_eq!(App::new(15).unwrap().timeout_secs, 15);
    assert_eq!(App::new(20).unwrap().timeout_secs, 20);
    assert!(matches!(App::new(1), Err(TimeoutError::TooShort)));
    assert!(matches!(App::new(1000), Err(TimeoutError::TooLong)));
}

#[test]
fn timeout_error_messages() {
    assert_eq!(TimeoutError::TooShort.message(), "Timeout cannot be less than 5 seconds");
    assert_eq!(TimeoutError::TooLong.message(), "timeout cannot exceed 300 seconds");
}
