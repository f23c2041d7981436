//! Derive a deterministic local clone destination from a remote repository
//! reference.
//!
//! A remote reference in standard URL form (`scheme://host/path`) or in
//! SCP shorthand (`user@host:path`) is resolved to `root/host/path`, with
//! any trailing extension on the last path segment removed.  The resolver
//! is a pure function of its inputs; materializing the clone itself is
//! left to the caller.

pub mod config;
pub mod error;
pub mod resolve;
pub mod text;
pub mod url_parse;
