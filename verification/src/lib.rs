//! Test-vector sequence generation for numeric domains. Each generated
//! sequence starts with the domain's fixed boundary values, in their
//! canonical order (truncated when the request is shorter), and is filled to
//! the requested length with values drawn from a caller-supplied random
//! source. Floating-point values are handled as their bit patterns, so that
//! boundary coverage is stated bit for bit.

pub mod bounds;
pub mod generator;
pub mod laws;
pub mod source;
