//! Building optimized TensorRT-RTX engines: builder, its configuration, the
//! network definition and its tensors.

use core::marker::PhantomData;
use vstd::prelude::*;

use crate::error::Result;
use crate::logger::{runtime_unavailable, tensorrt_available, Logger};

pub use crate::network_flags;

verus! {

/// Memory pool types.
#[derive(Debug, Clone, Copy, PartialEq, Eq)]
pub enum MemoryPoolType {
    /// Workspace memory
    Workspace,
    /// DLA managed SRAM
    DlaManagedSram,
    /// DLA local DRAM
    DlaLocalDram,
    /// DLA global DRAM
    DlaGlobalDram,
}

/// The code by which the TensorRT-RTX C API names a memory pool.
pub open spec fn pool_code(pool: MemoryPoolType) -> i32 {
    match pool {
        MemoryPoolType::Workspace => 0,
        MemoryPoolType::DlaManagedSram => 1,
        MemoryPoolType::DlaLocalDram => 2,
        MemoryPoolType::DlaGlobalDram => 3,
    }
}

/// Distinct memory pools have distinct codes, so the C API is never told one
/// pool where another was meant.
pub proof fn pool_codes_distinct(a: MemoryPoolType, b: MemoryPoolType)
    requires
        a != b,
    ensures
        pool_code(a) != pool_code(b),
{
}

impl MemoryPoolType {
    /// The code by which the C API names this pool.
    pub fn code(self) -> (c: i32)
        ensures
            c == pool_code(self),
    {
        match self {
            MemoryPoolType::Workspace => 0,
            MemoryPoolType::DlaManagedSram => 1,
            MemoryPoolType::DlaLocalDram => 2,
            MemoryPoolType::DlaGlobalDram => 3,
        }
    }
}

/// Tensor handle.
pub struct Tensor {
    _private: (),
}

impl Tensor {
    /// A tensor exists only where a TensorRT-RTX runtime does.
    #[verifier::type_invariant]
    spec fn needs_runtime(self) -> bool {
        tensorrt_available()
    }

    /// Gets the tensor name. No tensor exists in this build, so no call reaches this and none returns.
    pub fn name(&self) -> (r: Result<String>)
        ensures
            tensorrt_available(),
    {
        proof {
            use_type_invariant(self);
        }
        Err(runtime_unavailable())
    }

    /// Sets the tensor name. No tensor exists in this build, so no call reaches this and none returns.
    pub fn set_name(&mut self, name: &str) -> (r: Result<()>)
        ensures
            tensorrt_available(),
    {
        proof {
            use_type_invariant(&*self);
        }
        Err(runtime_unavailable())
    }

    /// Gets the tensor dimensions. No tensor exists in this build, so no call reaches this and none returns.
    pub fn dimensions(&self) -> (r: Result<Vec<i32>>)
        ensures
            tensorrt_available(),
    {
        proof {
            use_type_invariant(self);
        }
        Err(runtime_unavailable())
    }

    /// Gets the tensor data type. No tensor exists in this build, so no call reaches this and none returns.
    pub fn get_type(&self) -> (r: Result<i32>)
        ensures
            tensorrt_available(),
    {
        proof {
            use_type_invariant(self);
        }
        Err(runtime_unavailable())
    }
}

/// Network definition for building TensorRT-RTX engines.
pub struct NetworkDefinition {
    _private: (),
}

impl NetworkDefinition {
    /// A network exists only where a TensorRT-RTX runtime does.
    #[verifier::type_invariant]
    spec fn needs_runtime(self) -> bool {
        tensorrt_available()
    }

    /// Adds an input tensor to the network. No network exists in this build,
    /// so no call reaches this and none returns.
    pub fn add_input(&mut self, name: &str, data_type: i32, dims: &[i32]) -> (r: Result<Tensor>)
        ensures
            tensorrt_available(),
    {
        proof {
            use_type_invariant(&*self);
        }
        Err(runtime_unavailable())
    }

    /// Marks a tensor as a network output. No network exists in this build,
    /// so no call reaches this and none returns.
    pub fn mark_output(&mut self, tensor: &Tensor) -> (r: Result<()>)
        ensures
            tensorrt_available(),
    {
        proof {
            use_type_invariant(&*self);
        }
        Err(runtime_unavailable())
    }

    /// Gets the number of inputs. No network exists in this build, so no
    /// call reaches this and none returns.
    pub fn get_nb_inputs(&self) -> (r: i32)
        ensures
            tensorrt_available(),
    {
        proof {
            use_type_invariant(self);
        }
        0
    }

    /// Gets the number of outputs. No network exists in this build, so no
    /// call reaches this and none returns.
    pub fn get_nb_outputs(&self) -> (r: i32)
        ensures
            tensorrt_available(),
    {
        proof {
            use_type_invariant(self);
        }
        0
    }

    /// Gets an input tensor by index. No network exists in this build, so no
    /// call reaches this and none returns.
    pub fn get_input(&self, index: i32) -> (r: Result<Tensor>)
        ensures
            tensorrt_available(),
    {
        proof {
            use_type_invariant(self);
        }
        Err(runtime_unavailable())
    }

    /// Gets an output tensor by index. No network exists in this build, so no
    /// call reaches this and none returns.
    pub fn get_output(&self, index: i32) -> (r: Result<Tensor>)
        ensures
            tensorrt_available(),
    {
        proof {
            use_type_invariant(self);
        }
        Err(runtime_unavailable())
    }

    /// Adds an activation layer. No network exists in this build, so no call
    /// reaches this and none returns.
    pub fn add_activation(&mut self, input: &Tensor, activation_type: i32) -> (r: Result<Tensor>)
        ensures
            tensorrt_available(),
    {
        proof {
            use_type_invariant(&*self);
        }
        Err(runtime_unavailable())
    }

    /// Adds an elementwise operation layer. No network exists in this build,
    /// so no call reaches this and none returns.
    pub fn add_elementwise(&mut self, input1: &Tensor, input2: &Tensor, op: i32) -> (r: Result<Tensor>)
        ensures
            tensorrt_available(),
    {
        proof {
            use_type_invariant(&*self);
        }
        Err(runtime_unavailable())
    }

    /// Adds a pooling layer. No network exists in this build, so no call
    /// reaches this and none returns.
    pub fn add_pooling(&mut self, input: &Tensor, pooling_type: i32, window_size: &[i32; 2]) -> (r: Result<Tensor>)
        ensures
            tensorrt_available(),
    {
        proof {
            use_type_invariant(&*self);
        }
        Err(runtime_unavailable())
    }

    /// Adds a shuffle layer (for reshaping/transposing). No network exists
    /// in this build, so no call reaches this and none returns.
    pub fn add_shuffle(&mut self, input: &Tensor) -> (r: Result<Tensor>)
        ensures
            tensorrt_available(),
    {
        proof {
            use_type_invariant(&*self);
        }
        Err(runtime_unavailable())
    }

    /// Adds a matrix multiply layer. No network exists in this build, so no
    /// call reaches this and none returns.
    pub fn add_matrix_multiply(&mut self, input0: &Tensor, op0: i32, input1: &Tensor, op1: i32) -> (r: Result<Tensor>)
        ensures
            tensorrt_available(),
    {
        proof {
            use_type_invariant(&*self);
        }
        Err(runtime_unavailable())
    }
}

/// Builder configuration.
pub struct BuilderConfig {
    _private: (),
}

impl BuilderConfig {
    /// A builder configuration exists only where a TensorRT-RTX runtime does.
    #[verifier::type_invariant]
    spec fn needs_runtime(self) -> bool {
        tensorrt_available()
    }

    /// Sets a memory pool limit. No configuration exists in this build, so no
    /// call reaches this and none returns.
    pub fn set_memory_pool_limit(&mut self, pool: MemoryPoolType, size: usize) -> (r: Result<()>)
        ensures
            tensorrt_available(),
    {
        proof {
            use_type_invariant(&*self);
        }
        Err(runtime_unavailable())
    }
}

/// Builder for creating optimized TensorRT-RTX engines.
pub struct Builder<'a> {
    _phantom: PhantomData<&'a ()>,
}

impl<'a> Builder<'a> {
    /// A builder exists only where a TensorRT-RTX runtime does.
    #[verifier::type_invariant]
    spec fn needs_runtime(self) -> bool {
        tensorrt_available()
    }

    /// Creates a new builder. No logger exists in this build, so no call
    /// reaches this and none returns.
    pub fn new(logger: &'a Logger) -> (r: Result<Self>)
        ensures
            tensorrt_available(),
    {
        proof {
            use_type_invariant(logger);
        }
        Err(runtime_unavailable())
    }

    /// Creates a network definition. No builder exists in this build, so no
    /// call reaches this and none returns.
    pub fn create_network(&self, flags: u32) -> (r: Result<NetworkDefinition>)
        ensures
            tensorrt_available(),
    {
        proof {
            use_type_invariant(self);
        }
        Err(runtime_unavailable())
    }

    /// Creates a builder configuration. No builder exists in this build, so
    /// no call reaches this and none returns.
    pub fn create_config(&self) -> (r: Result<BuilderConfig>)
        ensures
            tensorrt_available(),
    {
        proof {
            use_type_invariant(self);
        }
        Err(runtime_unavailable())
    }

    /// Builds a serialized network (engine). No builder exists in this build,
    /// so no call reaches this and none returns.
    pub fn build_serialized_network(
        &self,
        network: &mut NetworkDefinition,
        config: &mut BuilderConfig,
    ) -> (r: Result<Vec<u8>>)
        ensures
            tensorrt_available(),
    {
        proof {
            use_type_invariant(self);
        }
        Err(runtime_unavailable())
    }
}

} // verus!
