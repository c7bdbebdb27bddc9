use cucumber_thirtyfour_worlder::caps::{build_capabilities, caps_error_message, CapabilitySet};
use cucumber_thirtyfour_worlder::envcfg::BrowserKind;
use cucumber_thirtyfour_worlder::guard::ConcurrencyViolation;
use cucumber_thirtyfour_worlder::plan::{
    build_window_size_arg, plan_session, DriverStartupError, EnvValues, WorldBuildError,
};
use thirtyfour::BrowserCapabilitiesHelper;

fn env(
    browser: Option<&str>,
    driver_url: Option<&str>,
    host_url: Option<&str>,
    headless: Option<&str>,
    window_size: Option<&str>,
) -> EnvValues {
    EnvValues {
        browser: browser.map(String::from),
        driver_url: driver_url.map(String::from),
        host_url: host_url.map(String::from),
        headless: headless.map(String::from),
        window_size: window_size.map(String::from),
    }
}

fn args(xs: &[&str]) -> Vec<String> {
    xs.iter().map(|s| String::from(*s)).collect()
}

#[test]
fn firefox_without_concurrency_flag_fails() {
    let r = plan_session(env(Some("firefox"), None, None, None, None), &args(&[]), true);
    let e = r.unwrap_err();
    assert!(matches!(
        e,
        WorldBuildError::Concurrency(ConcurrencyViolation::FlagMissing)
    ));
}

#[test]
fn firefox_with_attached_one_proceeds() {
    let r = plan_session(env(Some("firefox"), None, None, None, None), &args(&["-c=1"]), true);
    let p = r.unwrap();
    assert_eq!(p.browser, BrowserKind::Firefox);
    assert!(p.headless);
    assert!(p.native_headless);
    assert!(p.set_window_rect_after_start);
    assert!(p.launch_args.is_empty());
    assert_eq!(p.driver_url, "http://localhost:4444");
    assert_eq!(p.host_url, "http://localhost:8080");
    assert_eq!(p.window_size, (1920, 1080));
}

#[test]
fn firefox_with_concurrency_four_fails() {
    let r = plan_session(
        env(Some("firefox"), None, None, None, None),
        &args(&["--concurrency=4"]),
        true,
    );
    let e = r.unwrap_err();
    assert!(matches!(
        e,
        WorldBuildError::Concurrency(ConcurrencyViolation::LimitExceeded)
    ));
}

#[test]
fn firefox_with_guard_disabled_skips_check() {
    let r = plan_session(env(Some("firefox"), None, None, None, None), &args(&[]), false);
    assert!(r.is_ok());
}

#[test]
fn chrome_plan_builds_launch_arguments() {
    let r = plan_session(
        env(Some("chrome"), None, None, Some("false"), Some("800x600")),
        &args(&[]),
        true,
    );
    let p = r.unwrap();
    assert_eq!(p.browser, BrowserKind::Chrome);
    assert!(!p.headless);
    assert!(!p.native_headless);
    assert!(!p.set_window_rect_after_start);
    assert_eq!(p.window_size, (800, 600));
    assert_eq!(p.launch_args, vec![
        String::from("--no-sandbox"),
        String::from("--window-size=800,600"),
    ]);
}

#[test]
fn chrome_headless_adds_flag() {
    let r = plan_session(env(Some("chrome"), None, None, None, None), &args(&[]), true);
    let p = r.unwrap();
    assert_eq!(p.launch_args, vec![
        String::from("--no-sandbox"),
        String::from("--window-size=1920,1080"),
        String::from("--headless"),
    ]);
}

#[test]
fn edge_plan_mirrors_chrome() {
    let r = plan_session(env(Some("edge"), None, None, None, None), &args(&[]), true);
    let p = r.unwrap();
    assert_eq!(p.browser, BrowserKind::Edge);
    assert_eq!(p.launch_args.len(), 3);
    assert!(!p.set_window_rect_after_start);
}

#[test]
fn environment_urls_carry_into_plan() {
    let r = plan_session(
        env(
            Some("chrome"),
            Some("http://driver:9515"),
            Some("http://app:3000"),
            None,
            None,
        ),
        &args(&[]),
        true,
    );
    let p = r.unwrap();
    assert_eq!(p.driver_url, "http://driver:9515");
    assert_eq!(p.host_url, "http://app:3000");
}

#[test]
fn missing_browser_reported_before_bad_window_size() {
    let r = plan_session(env(None, None, None, None, Some("junk")), &args(&[]), true);
    let e = r.unwrap_err();
    assert!(matches!(e, WorldBuildError::Configuration(c)
        if matches!(c, cucumber_thirtyfour_worlder::envcfg::RuntimeConfigError::BrowserMissing)));
}

#[test]
fn bad_window_size_reported_before_concurrency() {
    let r = plan_session(env(Some("firefox"), None, None, None, Some("wide")), &args(&[]), true);
    let e = r.unwrap_err();
    assert!(matches!(e, WorldBuildError::Configuration(c)
        if matches!(&c, cucumber_thirtyfour_worlder::envcfg::RuntimeConfigError::WindowSizeInvalid(v) if v == "wide")));
}

#[test]
fn window_size_argument_formats_exactly() {
    assert_eq!(build_window_size_arg(1920, 1080), "--window-size=1920,1080");
    assert_eq!(build_window_size_arg(0, 4294967295), "--window-size=0,4294967295");
}

#[test]
fn startup_error_message_names_server_and_url() {
    let e = DriverStartupError {
        browser: BrowserKind::Chrome,
        driver_url: String::from("http://localhost:4444"),
        detail: String::from("connection refused"),
    };
    assert_eq!(
        e.message(),
        "Failed to create WebDriver for Chrome: connection refused. \
         Make sure that chromedriver server is running at http://localhost:4444"
    );
}

#[test]
fn startup_error_message_per_backend() {
    let gecko = DriverStartupError {
        browser: BrowserKind::Firefox,
        driver_url: String::from("http://localhost:4444"),
        detail: String::from("boom"),
    };
    assert!(gecko.message().contains("geckodriver"));
    let edge = DriverStartupError {
        browser: BrowserKind::Edge,
        driver_url: String::from("http://localhost:4444"),
        detail: String::from("boom"),
    };
    assert!(edge.message().contains("msedgedriver"));
}

#[test]
fn capability_objects_carry_the_plan() {
    let plan = plan_session(
        env(Some("chrome"), None, None, None, Some("800x600")),
        &args(&[]),
        true,
    )
    .unwrap();
    match build_capabilities(&plan).unwrap() {
        CapabilitySet::Chrome(caps) => {
            let got: Vec<String> = caps.browser_option("args").unwrap();
            assert_eq!(got, vec![
                String::from("--no-sandbox"),
                String::from("--window-size=800,600"),
                String::from("--headless"),
            ]);
        }
        _ => panic!("expected chrome capabilities"),
    }
    let fplan = plan_session(env(Some("firefox"), None, None, None, None), &args(&["-c=1"]), true)
        .unwrap();
    match build_capabilities(&fplan).unwrap() {
        CapabilitySet::Firefox(mut caps) => assert!(caps.is_headless()),
        _ => panic!("expected firefox capabilities"),
    }
}

#[test]
fn capability_error_message_names_the_backend() {
    assert_eq!(
        caps_error_message(BrowserKind::Chrome, "boom"),
        "Failed to set Chrome options: boom"
    );
    assert_eq!(
        caps_error_message(BrowserKind::Firefox, "boom"),
        "Failed to set Firefox headless mode: boom"
    );
}
