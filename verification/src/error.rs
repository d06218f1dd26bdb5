//! The ways in which provisioning can fail.

use vstd::prelude::*;

verus! {

/// Why a provisioning stage did not complete.
#[derive(Clone, Copy, Debug, PartialEq, Eq, Structural)]
pub enum ProvisionError {
    /// A firmware-configuration blob that the stage needs is absent.
    ResourceMissing,
    /// A blob is empty, has the wrong length, or names a size that is not a
    /// positive whole number of pages.
    InvalidFormat,
    /// The page allocator refused a request, a release, or handed out pages
    /// that do not honour the request.
    AllocationFailure,
    /// A configuration-space read or write failed.
    HardwareAccessFailure,
}

} // verus!
