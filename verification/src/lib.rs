//! A boundary protocol between a caller that frees memory by hand and a callee that collects
//! garbage: opaque handles with a single owner, tagged results, string and array marshaling,
//! a single-byte stream bridge and the parser configuration that crosses the boundary.
use vstd::prelude::*;

pub mod ctypes;
pub mod envmap;
pub mod handle;
pub mod shell;
pub mod syntax;
pub mod util;

pub use envmap::EnvMap;
pub use syntax::{ParseError, QuoteError};

verus! {

/// `std::io::Error`, carried through the library untouched: nothing is read from it and
/// nothing is claimed of it.
#[verifier::external_type_specification]
#[verifier::external_body]
pub struct ExIoError(std::io::Error);

/// The types of errors that may occur in this crate.
#[derive(Debug)]
pub enum Error {
    /// An I/O error, exactly as the byte source raised it.
    IO(std::io::Error),
    /// A quoting error.
    Quote(syntax::QuoteError),
    /// A parsing error.
    Parse(syntax::ParseError),
    /// An error of no structured shape. The callee's error model is open, so its message is
    /// all that can be kept.
    Unknown(String),
}

} // verus!
