//! The failures a compute cycle surfaces to its caller.
use vstd::prelude::*;

verus! {

/// A terminal failure of one compute cycle; none is retried inside the
/// library.
#[derive(Debug, Clone, Copy, PartialEq, Eq, Structural)]
pub enum ComputeError {
    /// No device offers the capabilities the kernel needs.
    NoSuitableDevice,
    /// The kernel binary and the declared binding layout do not fit.
    PipelineBuildError,
    /// The device reported an error while mapping the staging buffer.
    ReadbackFailed,
}

} // verus!
