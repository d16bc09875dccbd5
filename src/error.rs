//! Errors surfaced by the library.
use vstd::prelude::*;

verus! {

/// The three error kinds that callers can observe.
#[derive(Debug, PartialEq, Eq)]
pub enum LibraryError {
    /// The catalog database could not be opened or queried.
    CatalogUnavailable(String),
    /// An asset directory could not be enumerated; holds the directory.
    DirectoryUnavailable(String),
    /// Replacing an asset failed: bad URL, network, status or write.
    FetchFailed(String),
}

impl LibraryError {
    /// A human-readable description of the error.
    pub fn message(&self) -> (r: String)
        ensures
            r@ == match self {
                LibraryError::CatalogUnavailable(m) => m@,
                LibraryError::DirectoryUnavailable(d) => d@,
                LibraryError::FetchFailed(m) => m@,
            },
    {
        match self {
            LibraryError::CatalogUnavailable(m) => m.clone(),
            LibraryError::DirectoryUnavailable(d) => d.clone(),
            LibraryError::FetchFailed(m) => m.clone(),
        }
    }
}

} // verus!
