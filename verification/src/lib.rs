//! Core library of a small comic-hosting site: an ordered, slug-addressable
//! comic index, an on-demand image resizer with a two-tier size cache, a
//! token-substitution template engine, and the supporting value stores.
//!
//! All I/O (files, HTTP) is left to the embedding program; the library works
//! on plain values and, for the resize pipeline, hands the embedding program
//! explicit actions to perform.

pub mod digits;
pub mod globals;
pub mod imaging;
pub mod index;
pub mod kvlist;
pub mod page;
pub mod paths;
pub mod records;
pub mod resize_op;
pub mod resizer;
pub mod rng;
pub mod session;
pub mod sidecar;
pub mod strutil;
pub mod template;
pub mod users;
