//! The ways in which an attempt can end without a usable server.

use vstd::prelude::*;

verus! {

/// Why an attempt to resolve, install or launch the server stopped.
///
/// Every error is terminal for the attempt in which it occurs: nothing is
/// retried and nothing is cleaned up.
#[derive(Clone, Copy, Debug, PartialEq, Eq, Structural)]
pub enum AdapterError {
    /// A page could not be fetched.
    Network,
    /// The milestone index advertises no version.
    VersionResolution,
    /// The release page of a version offers no server archive.
    ArtifactNotFound,
    /// No runtime and no configuration exist for the platform.
    UnsupportedPlatform,
    /// An archive could not be downloaded, decompressed or unpacked, or the
    /// version marker could not be written.
    Installation,
    /// A search pattern was rejected by the pattern engine.
    InvalidPattern,
}

impl AdapterError {
    /// A sentence for logs and user-facing messages.
    pub fn message(&self) -> (text: String)
        ensures
            text@ == self.message_text(),
    {
        match self {
            AdapterError::Network => "the page could not be fetched".to_string(),
            AdapterError::VersionResolution => "the milestone index lists no version".to_string(),
            AdapterError::ArtifactNotFound => "the release page offers no server archive".to_string(),
            AdapterError::UnsupportedPlatform => "the platform is not supported".to_string(),
            AdapterError::Installation => "the archive could not be installed".to_string(),
            AdapterError::InvalidPattern => "the search pattern is not valid".to_string(),
        }
    }

    /// The text of [`AdapterError::message`].
    pub open spec fn message_text(&self) -> Seq<char> {
        match self {
            AdapterError::Network => "the page could not be fetched"@,
            AdapterError::VersionResolution => "the milestone index lists no version"@,
            AdapterError::ArtifactNotFound => "the release page offers no server archive"@,
            AdapterError::UnsupportedPlatform => "the platform is not supported"@,
            AdapterError::Installation => "the archive could not be installed"@,
            AdapterError::InvalidPattern => "the search pattern is not valid"@,
        }
    }
}

} // verus!
