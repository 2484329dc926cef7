//! A uniform completion interface over language-model backends.
//!
//! The crate holds what such an interface decides: which backends there are
//! and what each announces about itself ([`providers`]); how an adapter is
//! made from a backend's name and a configuration ([`create`]); where and
//! how often an HTTP adapter sends a request while the backend throttles it
//! ([`google`]); how a script adapter prepares its interpreter environment,
//! which command it runs and how it reads the result ([`python`]); and how
//! every failure is told in one taxonomy ([`errors`]).
//!
//! It does no input or output. Where a request has to be sent or a command
//! run, an adapter hands its caller a step that says so and takes back what
//! came of it. Each decision is stated as a function on mathematical models
//! of the data, and each adapter is proved to decide as that function says.
//!
//! URLs are resolved by the `url` crate, JSON is read and written by
//! `serde_json`, and jitter is drawn with `rand`. What is taken on trust of
//! them is declared in [`endpoint`], [`json`] and [`jitter`]; what is taken
//! on trust of the standard library, in [`lossy`] and [`words`].

pub mod base;
pub mod config;
pub mod endpoint;
pub mod errors;
pub mod factory;
pub mod google;
pub mod jitter;
pub mod json;
pub mod lossy;
pub mod model;
pub mod process;
pub mod python;
pub mod text;
pub mod words;

pub use factory::create;
pub use factory::providers;
