//! Rendering of text templates into concrete documents: each recognized
//! placeholder call in a template is replaced by a synthetic field value
//! (a timestamp, an alphanumeric hash, a random selection, or a
//! locale-specific fake value such as a name or an address part).
//!
//! The verified core is the generator registry and the value-generation
//! algorithms; the templating engine, the random source and the fake-value
//! corpora are outside collaborators reached through trusted wrappers.

pub mod args;
pub mod clock;
pub mod engine;
pub mod errors;
pub mod fakes;
pub mod generators;
pub mod registry;
pub mod renderer;
pub mod rng;
pub mod strutil;
