//! Builder for browser-automation test worlds.
//!
//! The crate turns a minimal annotated type skeleton (`[pub] struct Name;`)
//! together with a small list of named configuration options into a complete
//! world definition: fields, an asynchronous constructor, accessors, and an
//! initialization routine that brings up a WebDriver session parametrized by
//! environment variables.
//!
//! The core is split into:
//! - [`text`]: verified string helpers and decimal conversion;
//! - [`tokens`]: the token model shared by the two input grammars;
//! - [`config`]: the parser for the option list given to the attribute;
//! - [`decl`]: the matcher for the accepted declaration shapes;
//! - [`synth`]: the synthesizer combining both into a world definition;
//! - [`caps`]: capability objects built behind trusted wrappers;
//! - [`envcfg`]: resolution of the environment variables read at runtime;
//! - [`guard`]: the concurrency-flag check required for geckodriver;
//! - [`plan`]: the browser bring-up decision logic;
//! - [`world`]: the world type itself with its accessors.

pub mod text;
pub mod tokens;
pub mod caps;
pub mod config;
pub mod decl;
pub mod envcfg;
pub mod guard;
pub mod plan;
pub mod synth;
pub mod world;
