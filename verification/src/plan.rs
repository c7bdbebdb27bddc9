//! The browser bring-up decision logic embedded in the generated
//! initialization routine: resolve the environment, enforce the concurrency
//! policy, and build the capability plan for the selected backend.
//!
//! The caller performs the session start itself; everything decided before
//! that network step is computed here, from explicit inputs.

use vstd::prelude::*;
use crate::envcfg::{
    BrowserKind,
    RuntimeConfigError,
    resolve_browser,
    resolve_driver_url,
    resolve_host_url,
    resolve_headless,
    resolve_window_size,
    window_size_valid,
    window_size_of,
};
use crate::guard::{ConcurrencyViolation, guard_scan, check_concurrency_args};
use crate::text::{u32_to_string, dec_digits_of};

verus! {

/// The raw environment values the caller read, one per variable.
#[derive(Debug)]
pub struct EnvValues {
    pub browser: Option<String>,
    pub driver_url: Option<String>,
    pub host_url: Option<String>,
    pub headless: Option<String>,
    pub window_size: Option<String>,
}

/// A fatal condition found before any session is started.
#[derive(Debug)]
pub enum WorldBuildError {
    /// An environment variable is missing, malformed, or out of the
    /// accepted set.
    Configuration(RuntimeConfigError),
    /// Firefox was selected without the required single-concurrency flag.
    Concurrency(ConcurrencyViolation),
}

/// The fully-resolved plan for one session: every decision made, only the
/// session start itself left to perform.
#[derive(Debug)]
pub struct SessionPlan {
    pub browser: BrowserKind,
    pub driver_url: String,
    pub host_url: String,
    pub headless: bool,
    pub window_size: (u32, u32),
    /// Launch arguments for the capability object (Chrome and Edge).
    pub launch_args: Vec<String>,
    /// Request the backend's native headless mode (Firefox).
    pub native_headless: bool,
    /// Re-apply the window rectangle after the session starts (Firefox
    /// restores the previous session's window size otherwise).
    pub set_window_rect_after_start: bool,
}

/// The value names a supported browser.
pub open spec fn is_supported_browser(s: Seq<char>) -> bool {
    s == "chrome"@ || s == "firefox"@ || s == "edge"@
}

/// The backend named by a supported value.
pub open spec fn browser_kind_of(s: Seq<char>) -> BrowserKind
    recommends
        is_supported_browser(s),
{
    if s == "chrome"@ {
        BrowserKind::Chrome
    } else if s == "firefox"@ {
        BrowserKind::Firefox
    } else {
        BrowserKind::Edge
    }
}

/// The URL a variable resolves to, given its default.
pub open spec fn url_of(v: Option<String>, default: Seq<char>) -> Seq<char> {
    match v {
        Some(s) => s@,
        None => default,
    }
}

/// The headless flag a variable resolves to: unset means headless, and only
/// the literal `true` keeps it.
pub open spec fn headless_of(v: Option<String>) -> bool {
    match v {
        None => true,
        Some(s) => s@ == "true"@,
    }
}

/// The window size a variable resolves to, when well-formed.
pub open spec fn resolved_window_size(v: Option<String>) -> (u32, u32) {
    match v {
        None => (1920u32, 1080u32),
        Some(s) => window_size_of(s@),
    }
}

/// The window-size launch argument: `--window-size=<w>,<h>`.
pub open spec fn window_size_arg_view(w: u32, h: u32) -> Seq<char> {
    "--window-size="@ + dec_digits_of(w as nat) + ","@ + dec_digits_of(h as nat)
}

/// The launch arguments per backend: Chrome and Edge disable the sandbox,
/// fix the window size, and add `--headless` when requested; Firefox takes
/// none (headless and window size go through their own channels).
pub open spec fn launch_args_view(k: BrowserKind, headless: bool, w: u32, h: u32) -> Seq<
    Seq<char>,
> {
    match k {
        BrowserKind::Firefox => Seq::empty(),
        _ => {
            if headless {
                seq!["--no-sandbox"@, window_size_arg_view(w, h), "--headless"@]
            } else {
                seq!["--no-sandbox"@, window_size_arg_view(w, h)]
            }
        },
    }
}

/// Builds the window-size launch argument.
pub fn build_window_size_arg(w: u32, h: u32) -> (r: String)
    ensures
        r@ == window_size_arg_view(w, h),
{
    let mut s = String::from_str("--window-size=");
    let ws = u32_to_string(w);
    s.append(ws.as_str());
    s.append(",");
    let hs = u32_to_string(h);
    s.append(hs.as_str());
    s
}

/// Builds the launch-argument list for a backend.
pub fn build_launch_args(k: BrowserKind, headless: bool, w: u32, h: u32) -> (r: Vec<String>)
    ensures
        r.deep_view() == launch_args_view(k, headless, w, h),
{
    let mut v: Vec<String> = Vec::new();
    match k {
        BrowserKind::Firefox => {
            proof {
                assert(v.deep_view() =~= launch_args_view(k, headless, w, h));
            }
            v
        },
        _ => {
            v.push(String::from_str("--no-sandbox"));
            v.push(build_window_size_arg(w, h));
            if headless {
                v.push(String::from_str("--headless"));
            }
            proof {
                assert(v.deep_view() =~= launch_args_view(k, headless, w, h));
            }
            v
        },
    }
}

/// Resolves the environment and the concurrency policy into a session plan.
///
/// The checks happen in a fixed order: a missing `BROWSER` first, then an
/// unsupported one, then a malformed `WINDOW_SIZE`, and then — only for
/// Firefox, and only when the guard is enabled — the concurrency flag. On
/// success every field of the plan is pinned down by the inputs.
pub fn plan_session(env: EnvValues, cli_args: &Vec<String>, guard_enabled: bool) -> (r: Result<
    SessionPlan,
    WorldBuildError,
>)
    ensures
        env.browser is None ==> (r matches Err(e) && e matches WorldBuildError::Configuration(c)
            && c is BrowserMissing),
        env.browser matches Some(bs) ==> {
            if !is_supported_browser(bs@) {
                r matches Err(e) && e matches WorldBuildError::Configuration(c)
                    && c matches RuntimeConfigError::BrowserUnsupported(u) && u@ == bs@
            } else {
                let kind = browser_kind_of(bs@);
                let wres = env.window_size;
                if wres is Some && !window_size_valid(wres->0@) {
                    r matches Err(e) && e matches WorldBuildError::Configuration(c)
                        && c matches RuntimeConfigError::WindowSizeInvalid(u) && u@ == wres->0@
                } else if kind is Firefox && guard_enabled && guard_scan(
                    cli_args.deep_view(),
                    false,
                ) is Err {
                    r matches Err(e) && e matches WorldBuildError::Concurrency(v) && v
                        == guard_scan(cli_args.deep_view(), false)->Err_0
                } else {
                    r matches Ok(p) && {
                        let wsz = resolved_window_size(env.window_size);
                        &&& p.browser == kind
                        &&& p.driver_url@ == url_of(env.driver_url, "http://localhost:4444"@)
                        &&& p.host_url@ == url_of(env.host_url, "http://localhost:8080"@)
                        &&& p.headless == headless_of(env.headless)
                        &&& p.window_size == wsz
                        &&& p.launch_args.deep_view() == launch_args_view(
                            kind,
                            headless_of(env.headless),
                            wsz.0,
                            wsz.1,
                        )
                        &&& p.native_headless == (kind is Firefox && headless_of(env.headless))
                        &&& p.set_window_rect_after_start == (kind is Firefox)
                    }
                }
            }
        },
{
    let browser = match resolve_browser(env.browser) {
        Ok(k) => k,
        Err(e) => {
            return Err(WorldBuildError::Configuration(e));
        },
    };
    let window_size = match resolve_window_size(env.window_size) {
        Ok(p) => p,
        Err(e) => {
            return Err(WorldBuildError::Configuration(e));
        },
    };
    let is_firefox = match browser {
        BrowserKind::Firefox => true,
        _ => false,
    };
    if is_firefox && guard_enabled {
        match check_concurrency_args(cli_args) {
            Ok(_) => {},
            Err(v) => {
                return Err(WorldBuildError::Concurrency(v));
            },
        }
    }
    let driver_url = resolve_driver_url(env.driver_url);
    let host_url = resolve_host_url(env.host_url);
    let headless = resolve_headless(env.headless);
    let launch_args = build_launch_args(browser, headless, window_size.0, window_size.1);
    Ok(
        SessionPlan {
            browser,
            driver_url,
            host_url,
            headless,
            window_size,
            launch_args,
            native_headless: is_firefox && headless,
            set_window_rect_after_start: is_firefox,
        },
    )
}

/// The label under which each backend is named in a startup failure.
pub open spec fn browser_label(k: BrowserKind) -> Seq<char> {
    match k {
        BrowserKind::Chrome => "Chrome"@,
        BrowserKind::Firefox => "Firefox"@,
        BrowserKind::Edge => "Edge"@,
    }
}

/// The local driver server matching each backend.
pub open spec fn driver_server_name(k: BrowserKind) -> Seq<char> {
    match k {
        BrowserKind::Chrome => "chromedriver"@,
        BrowserKind::Firefox => "geckodriver"@,
        BrowserKind::Edge => "msedgedriver"@,
    }
}

/// The message for a failed session start: it names the backend, carries the
/// underlying failure, and hints at starting the matching driver server at
/// the resolved URL.
pub open spec fn startup_error_message_view(k: BrowserKind, url: Seq<char>, detail: Seq<char>) -> Seq<char> {
    "Failed to create WebDriver for "@ + browser_label(k) + ": "@ + detail
        + ". Make sure that "@ + driver_server_name(k) + " server is running at "@ + url
}

/// A failed session start: the backend, the URL the start was attempted
/// against, and the underlying failure's description.
#[derive(Debug)]
pub struct DriverStartupError {
    pub browser: BrowserKind,
    pub driver_url: String,
    pub detail: String,
}

impl DriverStartupError {
    /// Renders the failure as its descriptive message.
    pub fn message(&self) -> (r: String)
        ensures
            r@ == startup_error_message_view(self.browser, self.driver_url@, self.detail@),
    {
        let label = match self.browser {
            BrowserKind::Chrome => "Chrome",
            BrowserKind::Firefox => "Firefox",
            BrowserKind::Edge => "Edge",
        };
        let server = match self.browser {
            BrowserKind::Chrome => "chromedriver",
            BrowserKind::Firefox => "geckodriver",
            BrowserKind::Edge => "msedgedriver",
        };
        let mut m = String::from_str("Failed to create WebDriver for ");
        m.append(label);
        m.append(": ");
        m.append(self.detail.as_str());
        m.append(". Make sure that ");
        m.append(server);
        m.append(" server is running at ");
        m.append(self.driver_url.as_str());
        m
    }
}

} // verus!
