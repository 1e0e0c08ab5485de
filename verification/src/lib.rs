//! Translator for a minimal eight-symbol tape-machine language.
//!
//! A source text is scanned once, left to right; each recognized symbol is
//! turned into an equivalent statement of a target host language, every other
//! character is inert. The emitted program text, the derived artifact paths
//! and the build command lines are pure functions of the input, and are
//! verified here; reading files, writing artifacts and invoking the host
//! toolchains is left to the surrounding application.

pub mod backend;
pub mod cli;
pub mod lang;
pub mod paths;
pub mod translate;
