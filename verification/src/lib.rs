//! A minimal cross-language call boundary around a handful of integer
//! operations.
//!
//! The arithmetic is incidental; the point of the library is the boundary
//! discipline: a foreign caller passes a borrowed, null-terminated operator
//! string and two integers, and receives an owned result record whose two
//! nullable slots carry either a success payload or a rendered error message,
//! never both. Every owned export is reclaimed by an explicit, matching
//! deallocation call made by the caller.
//!
//! This crate holds the verified core: input validation ([`adapter`],
//! [`encoding`]), the operation executor ([`executor`]), error rendering
//! ([`errors`]), and the result-record encoder ([`boundary`]). The raw-pointer
//! shells that expose these functions with a C calling convention live outside
//! the verified library and only convert pointers to and from the plain values
//! used here.

pub mod adapter;
pub mod boundary;
pub mod encoding;
pub mod errors;
pub mod executor;
