//! Construction of the browser-specific capability objects from a session
//! plan. The objects themselves belong to the driver library and are opaque
//! here: each call into it stands behind a trusted wrapper, and what goes
//! into them — the launch arguments, the headless choice — is decided by the
//! verified plan.

use vstd::prelude::*;
use crate::envcfg::BrowserKind;
use crate::plan::SessionPlan;

verus! {

/// Relies on thirtyfour's `ChromeCapabilities` type, carried here opaquely.
#[verifier::external_type_specification]
#[verifier::external_body]
pub struct ExChromeCapabilities(thirtyfour::ChromeCapabilities);

/// Relies on thirtyfour's `FirefoxCapabilities` type, carried here opaquely.
#[verifier::external_type_specification]
#[verifier::external_body]
pub struct ExFirefoxCapabilities(thirtyfour::FirefoxCapabilities);

/// Relies on thirtyfour's `EdgeCapabilities` type, carried here opaquely.
#[verifier::external_type_specification]
#[verifier::external_body]
pub struct ExEdgeCapabilities(thirtyfour::EdgeCapabilities);

/// Relies on thirtyfour's `WebDriverError` type, carried here opaquely.
#[verifier::external_type_specification]
#[verifier::external_body]
pub struct ExWebDriverError(thirtyfour::error::WebDriverError);

/// The capability object for one backend, ready to start a session with.
pub enum CapabilitySet {
    Chrome(thirtyfour::ChromeCapabilities),
    Firefox(thirtyfour::FirefoxCapabilities),
    Edge(thirtyfour::EdgeCapabilities),
}

/// Relies on `DesiredCapabilities::chrome`: a fresh Chrome capability
/// object.
#[verifier::external_body]
fn new_chrome_capabilities() -> thirtyfour::ChromeCapabilities {
    thirtyfour::DesiredCapabilities::chrome()
}

/// Relies on `DesiredCapabilities::firefox`: a fresh Firefox capability
/// object.
#[verifier::external_body]
fn new_firefox_capabilities() -> thirtyfour::FirefoxCapabilities {
    thirtyfour::DesiredCapabilities::firefox()
}

/// Relies on `DesiredCapabilities::edge`: a fresh Edge capability object.
#[verifier::external_body]
fn new_edge_capabilities() -> thirtyfour::EdgeCapabilities {
    thirtyfour::DesiredCapabilities::edge()
}

/// Relies on `BrowserCapabilitiesHelper::insert_browser_option` for Chrome:
/// records the launch arguments under the browser's `args` option. The call
/// can fail only if serializing the value fails, and serializing a list of
/// strings cannot, so it returns `Ok` for every input.
#[verifier::external_body]
fn chrome_insert_args(
    caps: &mut thirtyfour::ChromeCapabilities,
    args: &Vec<String>,
) -> (r: Result<(), thirtyfour::error::WebDriverError>)
    ensures
        r is Ok,
{
    let opts: Vec<&str> = args.iter().map(|s| s.as_str()).collect();
    <thirtyfour::ChromeCapabilities as thirtyfour::BrowserCapabilitiesHelper>::insert_browser_option(
        caps, "args", opts,
    )
}

/// Relies on `BrowserCapabilitiesHelper::insert_browser_option` for Edge:
/// records the launch arguments under the browser's `args` option. The call
/// can fail only if serializing the value fails, and serializing a list of
/// strings cannot, so it returns `Ok` for every input.
#[verifier::external_body]
fn edge_insert_args(
    caps: &mut thirtyfour::EdgeCapabilities,
    args: &Vec<String>,
) -> (r: Result<(), thirtyfour::error::WebDriverError>)
    ensures
        r is Ok,
{
    let opts: Vec<&str> = args.iter().map(|s| s.as_str()).collect();
    <thirtyfour::EdgeCapabilities as thirtyfour::BrowserCapabilitiesHelper>::insert_browser_option(
        caps, "args", opts,
    )
}

/// Relies on `FirefoxCapabilities::set_headless`: requests the backend's
/// native headless mode by adding the `-headless` argument. Reading the
/// current arguments swallows any mismatch, and serializing a list of
/// strings cannot fail, so it returns `Ok` for every input.
#[verifier::external_body]
fn firefox_set_headless(
    caps: &mut thirtyfour::FirefoxCapabilities,
) -> (r: Result<(), thirtyfour::error::WebDriverError>)
    ensures
        r is Ok,
{
    caps.set_headless()
}

/// Builds the capability object the plan calls for: the plan's launch
/// arguments for Chrome and Edge, the native headless request for Firefox.
/// It always succeeds — nothing about a plan can make the construction fail
/// — and the returned variant always matches the planned backend.
pub fn build_capabilities(plan: &SessionPlan) -> (r: Result<
    CapabilitySet,
    thirtyfour::error::WebDriverError,
>)
    ensures
        r is Ok,
        r matches Ok(c) ==> {
            &&& (c is Chrome <==> plan.browser is Chrome)
            &&& (c is Firefox <==> plan.browser is Firefox)
            &&& (c is Edge <==> plan.browser is Edge)
        },
{
    match plan.browser {
        BrowserKind::Chrome => {
            let mut caps = new_chrome_capabilities();
            match chrome_insert_args(&mut caps, &plan.launch_args) {
                Ok(_) => Ok(CapabilitySet::Chrome(caps)),
                Err(e) => {
                    // The wrapper promises success.
                    proof {
                        assert(false);
                    }
                    Err(e)
                },
            }
        },
        BrowserKind::Firefox => {
            let mut caps = new_firefox_capabilities();
            if plan.native_headless {
                match firefox_set_headless(&mut caps) {
                    Ok(_) => Ok(CapabilitySet::Firefox(caps)),
                    Err(e) => {
                        // The wrapper promises success.
                        proof {
                            assert(false);
                        }
                        Err(e)
                    },
                }
            } else {
                Ok(CapabilitySet::Firefox(caps))
            }
        },
        BrowserKind::Edge => {
            let mut caps = new_edge_capabilities();
            match edge_insert_args(&mut caps, &plan.launch_args) {
                Ok(_) => Ok(CapabilitySet::Edge(caps)),
                Err(e) => {
                    // The wrapper promises success.
                    proof {
                        assert(false);
                    }
                    Err(e)
                },
            }
        },
    }
}

/// The message prefix when building a backend's capabilities fails; the
/// underlying failure's description follows it.
pub open spec fn caps_error_prefix(k: BrowserKind) -> Seq<char> {
    match k {
        BrowserKind::Chrome => "Failed to set Chrome options: "@,
        BrowserKind::Firefox => "Failed to set Firefox headless mode: "@,
        BrowserKind::Edge => "Failed to set Edge options: "@,
    }
}

/// Renders the message for a failed capability construction.
pub fn caps_error_message(k: BrowserKind, detail: &str) -> (r: String)
    ensures
        r@ == caps_error_prefix(k) + detail@,
{
    let mut m = match k {
        BrowserKind::Chrome => String::from_str("Failed to set Chrome options: "),
        BrowserKind::Firefox => String::from_str("Failed to set Firefox headless mode: "),
        BrowserKind::Edge => String::from_str("Failed to set Edge options: "),
    };
    m.append(detail);
    m
}

} // verus!
