//! The payloads of the parsed subcommands.
//!
//! The command-line parser lives outside the library; it hands the typed
//! arguments of each subcommand over in these structs. Paths travel as
//! plain strings.

use vstd::prelude::*;

verus! {

/// The `get` subcommand: read one key's value.
#[derive(Debug)]
pub struct Get {
    pub key: String,
}

/// The `qr` subcommand: render one key's value as a QR code, to the
/// terminal, or into the image or vector file named by `output`.
#[derive(Debug)]
pub struct Qr {
    pub key: String,
    pub output: Option<String>,
}

/// The `ls` subcommand: list at most `limit` records, skipping the first
/// `offset`, most recently modified first.
#[derive(Clone, Copy, Debug)]
pub struct Ls {
    pub limit: usize,
    pub offset: usize,
}

} // verus!
