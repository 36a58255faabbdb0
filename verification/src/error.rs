//! The error taxonomy of the library.

use vstd::prelude::*;

verus! {

/// The kinds of recoverable failure that the library reports. Callers
/// pattern-match on the kind rather than inspecting detail strings.
#[derive(Clone, Copy, Debug, PartialEq, Eq, Structural)]
pub enum ErrorKind {
    /// A license token of the wrong shape: its segment count differs from four.
    Format,
    /// Base64 decoding or text decoding failed.
    Encoding,
    /// The product catalog source could not be read or parsed.
    Catalog,
    /// A requested code is absent from the catalog, or the catalog is
    /// internally inconsistent.
    Lookup,
    /// The caller supplied neither an IDE nor a plugin selection, or the
    /// supplied calendar fields do not name a valid instant.
    Input,
    /// Key-pair generation or certificate assembly failed.
    Crypto,
    /// PEM or certificate decoding failed on the inspection path.
    Parse,
}

/// An error of this library: a kind from the taxonomy together with a
/// human-readable detail string.
#[derive(Debug)]
pub struct Error {
    pub kind: ErrorKind,
    pub details: String,
}

impl Error {
    /// Creates an error of the given kind carrying the given detail text.
    pub fn new(kind: ErrorKind, msg: &str) -> (e: Error)
        ensures
            e.kind == kind,
            e.details@ == msg@,
    {
        Error { kind, details: msg.to_owned() }
    }

    /// The detail text, for rendering at the service boundary.
    pub fn message(&self) -> (m: String)
        ensures
            m@ == self.details@,
    {
        self.details.clone()
    }
}

} // verus!
