//! Decides, step by step, how the `libexec` link beside an installation is
//! brought to point at the support directory of the installed git.
//!
//! The library performs no I/O. A driver asks it what to do next, does that
//! one thing, and reports what happened.

pub mod error;
pub mod laws;
pub mod machine;
pub mod paths;
pub mod plan;
pub mod text;
