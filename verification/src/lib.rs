//! Bridge logic for copy-on-write file cloning.
//!
//! The platform's clone primitive takes two NUL-terminated path strings and a
//! flags word.  This crate holds everything about such a request that can be
//! decided ahead of the system call — validating the paths, translating an
//! options record into the flags word — and the interpretation of the raw
//! result afterwards.  The call itself, and the host-runtime bindings around
//! it, live outside the library.

pub mod bridge;
pub mod options;
pub mod paths;
