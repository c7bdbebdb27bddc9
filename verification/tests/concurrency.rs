use cucumber_thirtyfour_worlder::guard::{check_concurrency_args, ConcurrencyViolation};

fn args(xs: &[&str]) -> Vec<String> {
    xs.iter().map(|s| String::from(*s)).collect()
}

#[test]
fn separate_flag_with_one_passes() {
    assert!(check_concurrency_args(&args(&["--concurrency", "1"])).is_ok());
}

#[test]
fn short_flag_with_one_passes() {
    assert!(check_concurrency_args(&args(&["-c", "1"])).is_ok());
}

#[test]
fn attached_flag_with_one_passes() {
    assert!(check_concurrency_args(&args(&["--concurrency=1"])).is_ok());
    assert!(check_concurrency_args(&args(&["-c=1"])).is_ok());
}

#[test]
fn attached_flag_with_other_value_fails() {
    let e = check_concurrency_args(&args(&["--concurrency=4"])).unwrap_err();
    assert_eq!(e, ConcurrencyViolation::LimitExceeded);
}

#[test]
fn separate_flag_with_other_value_fails() {
    let e = check_concurrency_args(&args(&["-c", "2"])).unwrap_err();
    assert_eq!(e, ConcurrencyViolation::LimitExceeded);
}

#[test]
fn no_flag_at_all_fails() {
    let e = check_concurrency_args(&args(&[])).unwrap_err();
    assert_eq!(e, ConcurrencyViolation::FlagMissing);
}

#[test]
fn flag_without_value_at_end_fails() {
    let e = check_concurrency_args(&args(&["--concurrency"])).unwrap_err();
    assert_eq!(e, ConcurrencyViolation::FlagMissing);
}

#[test]
fn non_numeric_attached_value_is_tolerated() {
    // A parse failure on the attached value does not violate the limit.
    assert!(check_concurrency_args(&args(&["-c=abc"])).is_ok());
    assert!(check_concurrency_args(&args(&["--concurrency", "lots"])).is_ok());
}

#[test]
fn leading_plus_counts_as_numeric() {
    // Unsigned parsing accepts one leading `+`, so `+2` is a numeric value
    // other than one and `+1` is exactly one; a bare `+` is not a number.
    let e = check_concurrency_args(&args(&["-c=+2"])).unwrap_err();
    assert_eq!(e, ConcurrencyViolation::LimitExceeded);
    assert!(check_concurrency_args(&args(&["--concurrency", "+1"])).is_ok());
    assert!(check_concurrency_args(&args(&["-c=+"])).is_ok());
}

#[test]
fn scan_passes_over_unrelated_arguments() {
    assert!(check_concurrency_args(&args(&["test-binary", "--nocapture", "--concurrency=1"])).is_ok());
}

#[test]
fn first_recognized_form_decides() {
    let e = check_concurrency_args(&args(&["x", "-c=3", "--concurrency=1"])).unwrap_err();
    assert_eq!(e, ConcurrencyViolation::LimitExceeded);
}

#[test]
fn violation_message_names_geckodriver() {
    let e = check_concurrency_args(&args(&["-c", "8"])).unwrap_err();
    let msg = e.message();
    assert!(msg.contains("geckodriver"));
    assert!(msg.contains("--concurrency=1"));
}
