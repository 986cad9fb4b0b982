//! The kernel's binding interface: the single read/write storage slot it
//! works on in place, and the fixed shape of its invocations.
use vstd::prelude::*;
use crate::kernel::{entry_point, entry_point_spec};

verus! {

/// Bytes per buffer element (one 32-bit float).
pub const ELEMENT_STRIDE: u64 = 4;

/// Invocations per workgroup along X, as the kernel declares them.
pub const WORKGROUP_SIZE: u32 = 64;

/// One binding slot of a layout.
#[derive(Debug, Clone, Copy, PartialEq, Eq, Structural)]
pub struct BindingSlot {
    pub index: u32,
    /// Visible to the compute stage only.
    pub compute_only: bool,
    /// A storage buffer that the kernel may only read.
    pub read_only: bool,
    /// The smallest buffer, in bytes, that may be bound here.
    pub min_size: u64,
}

/// The slot the kernel expects: index 0, compute stage, read/write
/// storage, at least one element.
pub open spec fn kernel_slot_spec() -> BindingSlot {
    BindingSlot { index: 0, compute_only: true, read_only: false, min_size: ELEMENT_STRIDE }
}

/// What a compute pipeline is built from, besides the module itself.
pub struct KernelInterface {
    pub entry_point: &'static str,
    pub slots: Vec<BindingSlot>,
    pub element_stride: u64,
    pub workgroup_size: u32,
}

impl KernelInterface {
    /// The interface of the inverse-square-root kernel.
    pub open spec fn is_inverse_sqrt(&self) -> bool {
        &&& self.entry_point@ == entry_point_spec()
        &&& self.slots@ == seq![kernel_slot_spec()]
        &&& self.element_stride == ELEMENT_STRIDE
        &&& self.workgroup_size == WORKGROUP_SIZE
    }

    /// Builds the interface of the inverse-square-root kernel.
    pub fn inverse_sqrt() -> (r: KernelInterface)
        ensures
            r.is_inverse_sqrt(),
    {
        let slot = BindingSlot {
            index: 0,
            compute_only: true,
            read_only: false,
            min_size: ELEMENT_STRIDE,
        };
        let mut slots: Vec<BindingSlot> = Vec::new();
        slots.push(slot);
        proof {
            assert(slots@ =~= seq![kernel_slot_spec()]);
        }
        KernelInterface {
            entry_point: entry_point(),
            slots,
            element_stride: ELEMENT_STRIDE,
            workgroup_size: WORKGROUP_SIZE,
        }
    }
}

} // verus!
