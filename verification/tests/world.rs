use cucumber_thirtyfour_worlder::plan::{plan_session, EnvValues};
use cucumber_thirtyfour_worlder::world::AppWorld;
use std::sync::Arc;

// A real driver handle pointing at the local server address, never used for
// any request here: the session-start round trip belongs to the program
// around the library.
fn offline_driver() -> thirtyfour::WebDriver {
    let client = reqwest::Client::new();
    let handle = thirtyfour::session::handle::SessionHandle::new(
        Arc::new(client),
        "http://localhost:4444",
        thirtyfour::SessionId::from(String::from("offline-session")),
    )
    .unwrap();
    thirtyfour::WebDriver { handle: Arc::new(handle) }
}

fn chrome_world() -> AppWorld {
    let plan = plan_session(
        EnvValues {
            browser: Some(String::from("chrome")),
            driver_url: None,
            host_url: None,
            headless: None,
            window_size: None,
        },
        &Vec::new(),
        true,
    )
    .unwrap();
    AppWorld::from_plan(offline_driver(), plan)
}

#[test]
fn world_accessors_return_resolved_configuration() {
    let w = chrome_world();
    assert_eq!(w.driver_url(), "http://localhost:4444");
    assert_eq!(w.host_url(), "http://localhost:8080");
    assert!(w.headless());
    assert_eq!(w.window_size(), (1920, 1080));
}

#[test]
fn goto_url_appends_path_to_host() {
    let w = chrome_world();
    assert_eq!(w.goto_url("/login"), "http://localhost:8080/login");
}

#[test]
fn driver_accessor_hands_out_the_session() {
    let w = chrome_world();
    assert_eq!(w.driver().handle.session_id().to_string(), "offline-session");
}
