//! Input parsing for a line-oriented directory-service shell.
//!
//! One raw line of operator input is normalized, split into tokens, and
//! classified into a single well-typed command value: either a shell-level
//! command, a validated directory sub-command, or a diagnostic variant for
//! unrecognized or malformed input.

pub mod commands;
pub mod laws;
pub mod numbers;
pub mod text;
pub mod tokens;
