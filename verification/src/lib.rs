//! Version-gated API support for a simulator binding layer.
//!
//! The crate has two halves.
//!
//! The first half models and evaluates runtime version gates: a function of
//! the binding layer is declared together with two lists of version
//! requirement expressions (`valid` and `invalid`), and a call is forwarded
//! to the real implementation only when the version of the running host
//! product matches at least one `valid` requirement and no `invalid`
//! requirement.  [`transform`] derives the declarations that surround a
//! gated function (the renamed private implementation, the public wrapper,
//! and the constant and cache names), and [`gate`] evaluates and memoizes
//! that decision.  Requirement expressions are interpreted by the
//! `versions` crate, reached through the trusted declarations in
//! [`requirement`].
//!
//! The second half locates the Python environment that the simulator ships:
//! parsing a Python version out of an include directory name
//! ([`version`]), describing and checking a discovered environment
//! ([`environment`]), and the path-name logic of the discovery search
//! itself ([`discovery`]).  All path handling works on plain
//! `/`-separated strings; the filesystem probing that feeds it lives with
//! the caller.

pub mod discovery;
pub mod environment;
pub mod error;
pub mod gate;
pub mod requirement;
pub mod text;
pub mod transform;
pub mod version;
