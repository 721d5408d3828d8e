//! Core logic of a compile-time helper that binds externally stored unit-test
//! files into a compilation unit as modules.
//!
//! The library validates the short parameter list given to the code-generation
//! entry points (`"relative/path.rs"` with an optional `"module name"` after a
//! comma), resolves the path against a manifest root and a configurable base
//! folder, and derives a fallback module name from the tokens of an annotated
//! declaration when no explicit name was supplied.
//!
//! The code-generation entry points themselves live outside this library: they
//! translate the host compiler's token stream into [`config::MacroToken`]
//! values, call [`config::extract_unit_tests_parameters`], and assemble the
//! generated module declaration from the returned
//! [`config::UnitTestParameters`].

/// Parameter extraction, module-name generation and base-folder configuration.
pub mod config;

/// Laws that relate the parameter grammar, the generated names and the
/// base-folder configuration.
pub mod laws;

/// Error enumeration.
pub mod errors;

