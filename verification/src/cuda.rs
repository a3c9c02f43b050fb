//! CUDA device memory and synchronization.

use vstd::prelude::*;

use crate::error::{Error, Result};
use crate::logger::runtime_unavailable;

verus! {

/// Whether a CUDA runtime is present. This build carries none: device memory
/// cannot be allocated and the device cannot be synchronized.
pub open spec fn cuda_available() -> bool {
    false
}

/// The message of the error that allocating device memory gives in this build.
pub open spec fn allocation_unavailable_message() -> Seq<char> {
    "DeviceBuffer cannot be created in mock mode - CUDA not available"@
}

/// The message of the error that synchronizing the device gives in this build.
pub open spec fn synchronize_unavailable_message() -> Seq<char> {
    "CUDA synchronize cannot be called in mock mode - CUDA not available"@
}

/// Owner of a block of CUDA device memory.
pub struct DeviceBuffer {
    _private: (),
}

impl DeviceBuffer {
    /// Device memory exists only where a CUDA runtime does.
    #[verifier::type_invariant]
    spec fn needs_cuda(self) -> bool {
        cuda_available()
    }

    /// Allocates `size` bytes of device memory. This build carries no CUDA
    /// runtime, so for every size this fails with an error that says so.
    pub fn new(size: usize) -> (r: Result<Self>)
        ensures
            r matches Err(e) && e.is_runtime_with(allocation_unavailable_message()),
    {
        Err(Error::runtime("DeviceBuffer cannot be created in mock mode - CUDA not available"))
    }

    /// Gets the size in bytes. No device buffer exists in this build, so no
    /// call reaches this and none returns.
    pub fn size(&self) -> (r: usize)
        ensures
            cuda_available(),
    {
        proof {
            use_type_invariant(self);
        }
        0
    }

    /// Copies data from host to device. No device buffer exists in this
    /// build, so no call reaches this and none returns.
    pub fn copy_from_host(&mut self, data: &[u8]) -> (r: Result<()>)
        ensures
            cuda_available(),
    {
        proof {
            use_type_invariant(&*self);
        }
        Err(runtime_unavailable())
    }

    /// Copies data from device to host. No device buffer exists in this
    /// build, so no call reaches this and none returns.
    pub fn copy_to_host(&self, data: &mut [u8]) -> (r: Result<()>)
        ensures
            cuda_available(),
    {
        proof {
            use_type_invariant(self);
        }
        Err(runtime_unavailable())
    }
}

/// Waits for the CUDA device to finish its work. This build carries no CUDA
/// runtime, so this always fails with an error that says so.
pub fn synchronize() -> (r: Result<()>)
    ensures
        r matches Err(e) && e.is_runtime_with(synchronize_unavailable_message()),
{
    Err(Error::runtime("CUDA synchronize cannot be called in mock mode - CUDA not available"))
}

} // verus!
