//! Deserializing engines and running inference.

use core::marker::PhantomData;
use vstd::prelude::*;

use crate::error::Result;
use crate::logger::{runtime_unavailable, tensorrt_available, Logger};

verus! {

/// A CUDA engine containing optimized inference code.
pub struct CudaEngine {
    _private: (),
}

impl CudaEngine {
    /// An engine exists only where a TensorRT-RTX runtime does.
    #[verifier::type_invariant]
    spec fn needs_runtime(self) -> bool {
        tensorrt_available()
    }

    /// Gets the number of I/O tensors. No engine exists in this build, so no
    /// call reaches this and none returns.
    pub fn get_nb_io_tensors(&self) -> (r: Result<i32>)
        ensures
            tensorrt_available(),
    {
        proof {
            use_type_invariant(self);
        }
        Err(runtime_unavailable())
    }

    /// Gets the name of a tensor by index. No engine exists in this build, so
    /// no call reaches this and none returns.
    pub fn get_tensor_name(&self, index: i32) -> (r: Result<String>)
        ensures
            tensorrt_available(),
    {
        proof {
            use_type_invariant(self);
        }
        Err(runtime_unavailable())
    }

    /// Creates an execution context for inference. No engine exists in this
    /// build, so no call reaches this and none returns.
    pub fn create_execution_context(&self) -> (r: Result<ExecutionContext<'_>>)
        ensures
            tensorrt_available(),
    {
        proof {
            use_type_invariant(self);
        }
        Err(runtime_unavailable())
    }
}

/// Execution context for running inference.
pub struct ExecutionContext<'a> {
    _phantom: PhantomData<&'a ()>,
}

impl<'a> ExecutionContext<'a> {
    /// An execution context exists only where a TensorRT-RTX runtime does.
    #[verifier::type_invariant]
    spec fn needs_runtime(self) -> bool {
        tensorrt_available()
    }
}

/// Runtime for deserializing engines.
pub struct Runtime<'a> {
    _phantom: PhantomData<&'a ()>,
}

impl<'a> Runtime<'a> {
    /// A runtime exists only where a TensorRT-RTX runtime library does.
    #[verifier::type_invariant]
    spec fn needs_runtime(self) -> bool {
        tensorrt_available()
    }

    /// Creates a new runtime. No logger exists in this build, so no call
    /// reaches this and none returns.
    pub fn new(logger: &'a Logger) -> (r: Result<Self>)
        ensures
            tensorrt_available(),
    {
        proof {
            use_type_invariant(logger);
        }
        Err(runtime_unavailable())
    }

    /// Deserializes a CUDA engine from serialized data. No runtime exists in
    /// this build, so no call reaches this and none returns.
    pub fn deserialize_cuda_engine(&self, data: &[u8]) -> (r: Result<CudaEngine>)
        ensures
            tensorrt_available(),
    {
        proof {
            use_type_invariant(self);
        }
        Err(runtime_unavailable())
    }
}

} // verus!
