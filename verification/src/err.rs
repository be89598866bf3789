use vstd::prelude::*;

verus! {

/// Why a condition could not be built from its arguments.
#[derive(Debug, Clone, PartialEq, Eq)]
pub enum Error {
    /// No metadata could be read for the path.
    MetadataUnavailable(String),
    /// The path is no regular file, or has no modification time.
    InputNotFile(String),
    /// The text is no URL.
    InvalidUrl(String),
    /// The text is no host with a numeric port.
    InvalidHost(String),
    /// The text is no duration.
    InvalidDuration(String),
}

} // verus!
