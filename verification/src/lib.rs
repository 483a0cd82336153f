//! Terminal control-sequence emission.
//!
//! A [`context::Context`] bundles a terminal capability database with an
//! output buffer. Each operation looks a capability up by name, expands its
//! template with the given numeric parameters, appends the resulting bytes to
//! the output, and returns how many bytes were written.

pub mod caps;
pub mod context;
pub mod error;
pub mod random;
