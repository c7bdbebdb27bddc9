use cucumber_thirtyfour_worlder::envcfg::{
    resolve_browser, resolve_driver_url, resolve_headless, resolve_host_url, resolve_window_size,
    BrowserKind, RuntimeConfigError,
};

fn val(s: &str) -> Option<String> {
    Some(String::from(s))
}

#[test]
fn window_size_well_formed() {
    assert_eq!(resolve_window_size(val("1920x1080")).unwrap(), (1920, 1080));
}

#[test]
fn window_size_non_numeric_width_rejected() {
    let e = resolve_window_size(val("abcx100")).unwrap_err();
    assert!(matches!(e, RuntimeConfigError::WindowSizeInvalid(v) if v == "abcx100"));
}

#[test]
fn window_size_without_separator_rejected() {
    let e = resolve_window_size(val("1920")).unwrap_err();
    assert!(matches!(e, RuntimeConfigError::WindowSizeInvalid(v) if v == "1920"));
}

#[test]
fn window_size_defaults_when_unset() {
    assert_eq!(resolve_window_size(None).unwrap(), (1920, 1080));
}

#[test]
fn window_size_empty_height_rejected() {
    assert!(resolve_window_size(val("1920x")).is_err());
}

#[test]
fn window_size_leading_zeros_accepted() {
    assert_eq!(resolve_window_size(val("01920x001080")).unwrap(), (1920, 1080));
}

#[test]
fn window_size_extra_separator_rejected() {
    // The accepted form is exactly `<u32>x<u32>`: a trailing third field is
    // not a number, so the value is invalid.
    let e = resolve_window_size(val("800x600x55")).unwrap_err();
    assert!(matches!(e, RuntimeConfigError::WindowSizeInvalid(v) if v == "800x600x55"));
    assert!(resolve_window_size(val("1920x1080x9")).is_err());
}

#[test]
fn window_size_overflowing_number_rejected() {
    assert!(resolve_window_size(val("4294967296x100")).is_err());
    assert_eq!(resolve_window_size(val("4294967295x100")).unwrap(), (4294967295, 100));
}

#[test]
fn headless_unset_is_headless() {
    assert!(resolve_headless(None));
}

#[test]
fn headless_false_is_visible() {
    assert!(!resolve_headless(val("false")));
}

#[test]
fn headless_only_exact_true_is_headless() {
    assert!(!resolve_headless(val("no")));
    assert!(!resolve_headless(val("True")));
    assert!(resolve_headless(val("true")));
}

#[test]
fn browser_supported_values() {
    assert_eq!(resolve_browser(val("chrome")).unwrap(), BrowserKind::Chrome);
    assert_eq!(resolve_browser(val("firefox")).unwrap(), BrowserKind::Firefox);
    assert_eq!(resolve_browser(val("edge")).unwrap(), BrowserKind::Edge);
}

#[test]
fn browser_unsupported_value_named_in_error() {
    let e = resolve_browser(val("safari")).unwrap_err();
    let msg = e.message();
    assert!(msg.contains("safari"));
    assert!(msg.contains("\"chrome\""));
    assert!(msg.contains("\"firefox\""));
    assert!(msg.contains("\"edge\""));
    assert!(matches!(e, RuntimeConfigError::BrowserUnsupported(v) if v == "safari"));
}

#[test]
fn browser_missing_is_fatal() {
    let e = resolve_browser(None).unwrap_err();
    assert!(matches!(e, RuntimeConfigError::BrowserMissing));
    let msg = e.message();
    assert!(msg.contains("BROWSER environment variable is not set"));
    assert!(msg.contains("\"chrome\""));
}

#[test]
fn driver_url_defaults() {
    assert_eq!(resolve_driver_url(None), "http://localhost:4444");
    assert_eq!(resolve_driver_url(val("http://driver:9999")), "http://driver:9999");
}

#[test]
fn host_url_defaults() {
    assert_eq!(resolve_host_url(None), "http://localhost:8080");
    assert_eq!(resolve_host_url(val("http://app:3000")), "http://app:3000");
}
