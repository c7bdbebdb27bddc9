//! The world type the generated code defines: the driver session handle and
//! the resolved configuration, with one reader per field and the navigation
//! URL computation.
//!
//! Starting the session and issuing the navigation are asynchronous network
//! calls performed by the surrounding program; this type holds their inputs
//! and results.

use vstd::prelude::*;
use crate::plan::SessionPlan;

verus! {

/// Relies on thirtyfour's `WebDriver` type: the session handle created by
/// `WebDriver::new`, carried here opaquely.
#[verifier::external_type_specification]
#[verifier::external_body]
pub struct ExWebDriver(thirtyfour::WebDriver);

/// Relies on thirtyfour's `SessionHandle` type, which `WebDriver`
/// dereferences to; declared only so that the driver type itself can be.
#[verifier::external_type_specification]
#[verifier::external_body]
pub struct ExSessionHandle(thirtyfour::session::handle::SessionHandle);

/// A world for one test run: the driver session and the configuration it
/// was brought up with.
#[derive(Debug)]
pub struct AppWorld {
    pub driver: thirtyfour::WebDriver,
    pub driver_url: String,
    pub host_url: String,
    pub headless: bool,
    pub window_size: (u32, u32),
}

impl AppWorld {
    /// Assembles the world from a started driver session and the plan the
    /// session was started from.
    pub fn from_plan(driver: thirtyfour::WebDriver, plan: SessionPlan) -> (r: AppWorld)
        ensures
            r.driver == driver,
            r.driver_url == plan.driver_url,
            r.host_url == plan.host_url,
            r.headless == plan.headless,
            r.window_size == plan.window_size,
    {
        AppWorld {
            driver,
            driver_url: plan.driver_url,
            host_url: plan.host_url,
            headless: plan.headless,
            window_size: plan.window_size,
        }
    }

    /// The driver of the world.
    pub fn driver(&self) -> (r: &thirtyfour::WebDriver)
        ensures
            *r == self.driver,
    {
        &self.driver
    }

    /// The driver URL of the world, from `DRIVER_URL`.
    pub fn driver_url(&self) -> (r: &str)
        ensures
            r@ == self.driver_url@,
    {
        self.driver_url.as_str()
    }

    /// The host URL of the world, from `HOST_URL`.
    pub fn host_url(&self) -> (r: &str)
        ensures
            r@ == self.host_url@,
    {
        self.host_url.as_str()
    }

    /// The headless mode of the world, from `HEADLESS`.
    pub fn headless(&self) -> (r: bool)
        ensures
            r == self.headless,
    {
        self.headless
    }

    /// The window size of the world, from `WINDOW_SIZE`.
    pub fn window_size(&self) -> (r: (u32, u32))
        ensures
            r == self.window_size,
    {
        self.window_size
    }

    /// The URL that navigating to `path` inside the host goes to: the host
    /// URL with the path appended.
    pub fn goto_url(&self, path: &str) -> (r: String)
        ensures
            r@ == self.host_url@ + path@,
    {
        let mut u = self.host_url.clone();
        u.append(path);
        u
    }
}

} // verus!
