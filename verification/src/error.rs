use vstd::prelude::*;

verus! {

/// Failure of the archive store.
#[derive(Clone, Copy, Debug, PartialEq, Eq, Structural)]
pub enum StoreError {
    /// An article with the same URL is already archived.
    DuplicateUrl,
    /// The backing medium could not be opened, read or written.
    IOError,
}

/// Failure of the external document compiler, carrying a diagnostic that
/// tells a missing compiler binary apart from a compiler that ran and failed.
pub struct ProcessError {
    pub diagnostic: String,
}

/// Failure while serializing the feed document.
#[derive(Clone, Copy, Debug, PartialEq, Eq, Structural)]
pub enum FeedError {
    /// A stored timestamp does not have the expected format.
    SerializationError,
}

} // verus!
