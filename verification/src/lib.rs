//! A minimal container launcher, verified at its core.
//!
//! Given an image reference, the pipeline obtains a registry pull token,
//! resolves the image manifest, merges the image's gzip-compressed tar
//! layers into a private root filesystem, confines the process to that
//! root, and runs a user command inside it, mirroring the child's exit
//! status. The decision logic of every step lives here; the surrounding
//! binary performs the network, disk and process work and feeds the
//! results back in as plain values.

use vstd::prelude::*;

pub mod image;
pub mod isolate;
pub mod layerfs;
pub mod orchestrator;
pub mod registry;
pub mod runner;

verus! {

/// Every way one run can fail, one variant per pipeline step.
#[derive(Clone, Copy, PartialEq, Eq, Structural, Debug)]
pub enum RunError {
    /// The token endpoint could not be reached or returned no token.
    Auth,
    /// The manifest could not be fetched or decoded.
    ManifestFetch,
    /// The manifest declares a media type other than the one schema
    /// this launcher supports.
    MediaTypeMismatch,
    /// A layer blob could not be downloaded in full.
    BlobDownload,
    /// A layer blob is not a well-formed gzip stream.
    BadGzip,
    /// A decompressed layer is not a well-formed tar archive.
    BadArchive,
    /// The root could not be prepared or the process could not be
    /// confined to it.
    Isolation,
    /// The user command could not be started.
    Spawn,
}

} // verus!
