//! A verified core for a line-printing utility in the style of `cat`.
//!
//! The library resolves command-line style arguments into a validated
//! configuration ([`args`]) and renders the lines of a text source with an
//! optional line-number prefix ([`emit`]). All I/O stays with the caller:
//! the functions here map plain values to plain values and carry contracts
//! that pin the output down exactly.

pub mod args;
pub mod emit;
pub mod line;
pub mod num;
