//! Device selection: the capabilities requested when a device is acquired.
use vstd::prelude::*;
use crate::error::ComputeError;

verus! {

/// A set of optional device capabilities.
#[derive(Debug, Clone, Copy, PartialEq, Eq, Structural)]
pub struct Capabilities {
    /// Timestamp queries, for diagnostics.
    pub timestamp_query: bool,
    /// Accepting precompiled SPIR-V modules as they are.
    pub spirv_passthrough: bool,
}

/// Every capability in `want` is in `have`.
pub open spec fn covers(have: Capabilities, want: Capabilities) -> bool {
    (want.timestamp_query ==> have.timestamp_query) && (want.spirv_passthrough
        ==> have.spirv_passthrough)
}

/// The capabilities the kernel's device must provide.
pub open spec fn required_spec() -> Capabilities {
    Capabilities { timestamp_query: true, spirv_passthrough: true }
}

/// The outcome of acquiring a device that offers `offered`.
pub open spec fn acquire_spec(offered: Capabilities) -> Result<Capabilities, ComputeError> {
    if covers(offered, required_spec()) {
        Ok(required_spec())
    } else {
        Err(ComputeError::NoSuitableDevice)
    }
}

impl Capabilities {
    /// The capabilities requested at device acquisition.
    pub fn required() -> (r: Capabilities)
        ensures
            r == required_spec(),
    {
        Capabilities { timestamp_query: true, spirv_passthrough: true }
    }
}

/// Decides device acquisition from what the adapter offers: the device is
/// opened with exactly the required capabilities, or not at all.
pub fn acquire(offered: Capabilities) -> (r: Result<Capabilities, ComputeError>)
    ensures
        r == acquire_spec(offered),
{
    if offered.timestamp_query && offered.spirv_passthrough {
        Ok(Capabilities::required())
    } else {
        Err(ComputeError::NoSuitableDevice)
    }
}

/// Acquiring a device twice yields contexts with the same capability set,
/// whatever each adapter offered beyond it.
pub proof fn lemma_setup_idempotent(a: Capabilities, b: Capabilities)
    requires
        acquire_spec(a) is Ok,
        acquire_spec(b) is Ok,
    ensures
        acquire_spec(a) == acquire_spec(b),
        acquire_spec(a) == Ok::<Capabilities, ComputeError>(required_spec()),
{
}

} // verus!
