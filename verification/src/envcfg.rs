//! Resolution of the environment variables that parametrize the generated
//! world at its own runtime: browser selection, driver and host URLs,
//! headless mode, and window size.
//!
//! Every function here is pure: the caller reads the process environment and
//! hands the raw values in, so the decision logic is checkable for every
//! possible environment.

use vstd::prelude::*;
use crate::text::{str_eq, parse_u32, all_dec_digits, dec_value, index_of_char, lemma_index_of_char_is, find_char_from};

verus! {

/// The closed set of supported browser backends.
#[derive(Clone, Copy, PartialEq, Eq, Structural, Debug)]
pub enum BrowserKind {
    Chrome,
    Firefox,
    Edge,
}

/// A fatal configuration problem found while resolving environment variables.
#[derive(Debug)]
pub enum RuntimeConfigError {
    /// `BROWSER` is not set at all.
    BrowserMissing,
    /// `BROWSER` is set to the carried value, which is not a supported
    /// browser.
    BrowserUnsupported(String),
    /// `WINDOW_SIZE` is set to the carried value, which does not have the
    /// form `<u32>x<u32>`.
    WindowSizeInvalid(String),
}

/// The message for each configuration error: it names the offending value and
/// lists the supported browsers where that is the remedy.
pub open spec fn runtime_config_error_message(e: RuntimeConfigError) -> Seq<char> {
    match e {
        RuntimeConfigError::BrowserMissing => "BROWSER environment variable is not set. Supported browsers are: \"chrome\", \"firefox\" and \"edge\"."@,
        RuntimeConfigError::BrowserUnsupported(v) => "Unsupported browser. BROWSER environment variable is: "@
            + v@ + ". Supported browsers are: \"chrome\", \"firefox\" and \"edge\"."@,
        RuntimeConfigError::WindowSizeInvalid(_) => "Invalid WINDOW_SIZE environment variable format. Expected format: WIDTHxHEIGHT"@,
    }
}

impl RuntimeConfigError {
    /// Renders the error as its descriptive message.
    pub fn message(&self) -> (r: String)
        ensures
            r@ == runtime_config_error_message(*self),
    {
        match self {
            RuntimeConfigError::BrowserMissing => String::from_str(
                "BROWSER environment variable is not set. Supported browsers are: \"chrome\", \"firefox\" and \"edge\".",
            ),
            RuntimeConfigError::BrowserUnsupported(v) => {
                let mut m = String::from_str(
                    "Unsupported browser. BROWSER environment variable is: ",
                );
                m.append(v.as_str());
                m.append(
                    ". Supported browsers are: \"chrome\", \"firefox\" and \"edge\".",
                );
                m
            },
            RuntimeConfigError::WindowSizeInvalid(_) => String::from_str(
                "Invalid WINDOW_SIZE environment variable format. Expected format: WIDTHxHEIGHT",
            ),
        }
    }
}

/// Resolves the `BROWSER` variable: required, and restricted to the supported
/// set.
pub fn resolve_browser(v: Option<String>) -> (r: Result<BrowserKind, RuntimeConfigError>)
    ensures
        v is None ==> (r matches Err(e) && e is BrowserMissing),
        v matches Some(s) ==> {
            &&& s@ == "chrome"@ ==> r == Ok::<BrowserKind, RuntimeConfigError>(BrowserKind::Chrome)
            &&& s@ == "firefox"@ ==> r == Ok::<BrowserKind, RuntimeConfigError>(
                BrowserKind::Firefox,
            )
            &&& s@ == "edge"@ ==> r == Ok::<BrowserKind, RuntimeConfigError>(BrowserKind::Edge)
            &&& (s@ != "chrome"@ && s@ != "firefox"@ && s@ != "edge"@) ==> (r matches Err(e)
                && e matches RuntimeConfigError::BrowserUnsupported(u) && u@ == s@)
        },
{
    proof {
        reveal_strlit("chrome");
        reveal_strlit("firefox");
        reveal_strlit("edge");
        assert("chrome"@.len() == 6);
        assert("firefox"@.len() == 7);
        assert("edge"@.len() == 4);
    }
    match v {
        None => Err(RuntimeConfigError::BrowserMissing),
        Some(s) => {
            if str_eq(s.as_str(), "chrome") {
                Ok(BrowserKind::Chrome)
            } else if str_eq(s.as_str(), "firefox") {
                Ok(BrowserKind::Firefox)
            } else if str_eq(s.as_str(), "edge") {
                Ok(BrowserKind::Edge)
            } else {
                Err(RuntimeConfigError::BrowserUnsupported(s))
            }
        },
    }
}

/// Resolves the `DRIVER_URL` variable, defaulting to the local WebDriver
/// server address.
pub fn resolve_driver_url(v: Option<String>) -> (r: String)
    ensures
        v matches Some(s) ==> r@ == s@,
        v is None ==> r@ == "http://localhost:4444"@,
{
    match v {
        Some(s) => s,
        None => String::from_str("http://localhost:4444"),
    }
}

/// Resolves the `HOST_URL` variable, defaulting to the local application
/// address.
pub fn resolve_host_url(v: Option<String>) -> (r: String)
    ensures
        v matches Some(s) ==> r@ == s@,
        v is None ==> r@ == "http://localhost:8080"@,
{
    match v {
        Some(s) => s,
        None => String::from_str("http://localhost:8080"),
    }
}

/// Resolves the `HEADLESS` variable: unset means headless; any set value
/// other than the literal `true` means visible.
pub fn resolve_headless(v: Option<String>) -> (r: bool)
    ensures
        r == match v {
            None => true,
            Some(s) => s@ == "true"@,
        },
{
    match v {
        None => true,
        Some(s) => str_eq(s.as_str(), "true"),
    }
}

/// Index of the first `x` separator in `s`, or its length when there is
/// none.
pub open spec fn sep_index(s: Seq<char>) -> int {
    index_of_char(s, 'x')
}

/// The width field: everything before the first separator.
pub open spec fn window_width_part(s: Seq<char>) -> Seq<char> {
    s.take(sep_index(s))
}

/// The height field: everything after the separator. A second separator or
/// any other trailing text makes the field a non-number, so the value is
/// rejected: the accepted form is exactly `<u32>x<u32>`.
pub open spec fn window_height_part(s: Seq<char>) -> Seq<char> {
    s.skip(sep_index(s) + 1)
}

/// A well-formed `WINDOW_SIZE` value: a separator is present and both fields
/// are decimal numbers that fit in a `u32`.
pub open spec fn window_size_valid(s: Seq<char>) -> bool {
    &&& sep_index(s) < s.len()
    &&& window_width_part(s).len() > 0
    &&& all_dec_digits(window_width_part(s))
    &&& dec_value(window_width_part(s)) <= u32::MAX
    &&& window_height_part(s).len() > 0
    &&& all_dec_digits(window_height_part(s))
    &&& dec_value(window_height_part(s)) <= u32::MAX
}

/// The window size described by a well-formed `WINDOW_SIZE` value.
pub open spec fn window_size_of(s: Seq<char>) -> (u32, u32)
    recommends
        window_size_valid(s),
{
    (dec_value(window_width_part(s)) as u32, dec_value(window_height_part(s)) as u32)
}

/// Resolves the `WINDOW_SIZE` variable, defaulting to `1920x1080`; a set
/// value must have the form `<u32>x<u32>`.
pub fn resolve_window_size(v: Option<String>) -> (r: Result<(u32, u32), RuntimeConfigError>)
    ensures
        v is None ==> (r matches Ok(p) && p == (1920u32, 1080u32)),
        v matches Some(s) ==> {
            &&& window_size_valid(s@) ==> (r matches Ok(p) && p == window_size_of(s@))
            &&& !window_size_valid(s@) ==> (r matches Err(e)
                && e matches RuntimeConfigError::WindowSizeInvalid(u) && u@ == s@)
        },
{
    let s = match v {
        None => {
            return Ok((1920, 1080));
        },
        Some(s) => s,
    };
    let n = s.as_str().unicode_len();
    let i = find_char_from(s.as_str(), 0, 'x');
    proof {
        lemma_index_of_char_is(s@, 'x', i as int);
    }
    if i == n {
        return Err(RuntimeConfigError::WindowSizeInvalid(s));
    }
    let width_str = s.as_str().substring_char(0, i);
    proof {
        assert(width_str@ =~= window_width_part(s@));
    }
    let width = match parse_u32(width_str) {
        Some(w) => w,
        None => {
            return Err(RuntimeConfigError::WindowSizeInvalid(s));
        },
    };
    let height_str = s.as_str().substring_char(i + 1, n);
    proof {
        assert(height_str@ =~= window_height_part(s@));
    }
    let height = match parse_u32(height_str) {
        Some(h) => h,
        None => {
            return Err(RuntimeConfigError::WindowSizeInvalid(s));
        },
    };
    Ok((width, height))
}

} // verus!
