//! The compute backends, and whether a backend has a device to run on.
use vstd::prelude::*;

verus! {

/// Execution target that selects the CPU array backend.
pub const TARGET_CPU: u32 = 0;

/// Execution target that selects the GPU backend.
pub const TARGET_GPU: u32 = 1;

/// A compute backend under which a model and its contexts run.
#[derive(Clone, Copy, Debug, PartialEq, Eq, Structural)]
pub enum Backend {
    /// The CPU array backend.
    NdArray,
    /// The GPU backend.
    Wgpu,
}

impl Backend {
    /// The backend that an execution target selects, if it selects one.
    pub open spec fn spec_from_target(target: u32) -> Option<Backend> {
        if target == TARGET_CPU {
            Some(Backend::NdArray)
        } else if target == TARGET_GPU {
            Some(Backend::Wgpu)
        } else {
            None
        }
    }

    /// The execution target of a backend.
    pub open spec fn spec_target(self) -> u32 {
        match self {
            Backend::NdArray => TARGET_CPU,
            Backend::Wgpu => TARGET_GPU,
        }
    }

    /// Selects a backend by execution target: 0 is the CPU, 1 the GPU, and
    /// no other target is supported.
    pub fn from_target(target: u32) -> (backend: Option<Backend>)
        ensures
            backend == Self::spec_from_target(target),
    {
        if target == TARGET_CPU {
            Some(Backend::NdArray)
        } else if target == TARGET_GPU {
            Some(Backend::Wgpu)
        } else {
            None
        }
    }

    /// Returns the execution target of the backend.
    pub fn target(self) -> (target: u32)
        ensures
            target == self.spec_target(),
            Self::spec_from_target(target) == Some(self),
    {
        match self {
            Backend::NdArray => TARGET_CPU,
            Backend::Wgpu => TARGET_GPU,
        }
    }
}

/// How many device families are probed for each backend.
pub const MAX_TYPE_IDS: u16 = 4;

/// Some family in `counts` has a device.
pub open spec fn some_device(counts: Seq<usize>) -> bool {
    exists|i: int| 0 <= i < counts.len() && counts[i] > 0
}

/// Tells whether a backend exposes any device, given the number of devices
/// that each probed family reported.
pub fn backend_has_devices(device_counts: &Vec<usize>) -> (found: bool)
    ensures
        found == some_device(device_counts@),
{
    let mut i: usize = 0;
    while i < device_counts.len()
        invariant
            i <= device_counts.len(),
            forall|j: int| 0 <= j < i ==> device_counts@[j] == 0,
        decreases device_counts.len() - i,
    {
        if device_counts[i] > 0 {
            return true;
        }
        i += 1;
    }
    false
}

} // verus!
