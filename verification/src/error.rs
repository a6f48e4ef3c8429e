use vstd::prelude::*;

verus! {

/// A fatal condition of a synchronizer run. Every variant carries the
/// offending key or path, so that the caller can report an attributable
/// message before aborting.
#[derive(Debug, PartialEq, Eq)]
pub enum SyncError {
    /// The local tree could not be scanned, or a path has no text form.
    Scan { path: String },
    /// The remote listing could not be completed; without a full remote
    /// inventory no deletion decision is safe.
    Listing { detail: String },
    /// No content type could be determined with confidence for an upload
    /// candidate; uploading with a guessed type is never done.
    ClassificationUncertain { key: String },
    /// A put or delete call failed; the run stops and the next full run
    /// is the retry mechanism.
    Transfer { key: String },
}

} // verus!
