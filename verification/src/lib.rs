//! Active TLS server fingerprinting.
//!
//! The crate builds a fixed sequence of ten `ClientHello` probes, parses the
//! `ServerHello` answers, and condenses the observations into a 62-character
//! hex digest.  Byte layouts and the digest computation are verified; the
//! network transport is left to the binary around the library.

use vstd::prelude::*;

pub mod encoding;
pub mod hello;
pub mod parse;
pub mod probe;
pub mod reduce;

verus! {

/// Command-line configuration: the target to scan, as `HOST` or `HOST:PORT`.
pub struct ConfigArgs {
    pub target: String,
}

} // verus!
