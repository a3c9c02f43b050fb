//! Parsing ONNX models into a network definition.

use vstd::prelude::*;

use crate::builder::NetworkDefinition;
use crate::error::Result;
use crate::logger::{runtime_unavailable, tensorrt_available, Logger};

verus! {

/// ONNX model parser.
pub struct OnnxParser {
    _private: (),
}

impl OnnxParser {
    /// A parser exists only where a TensorRT-RTX runtime does.
    #[verifier::type_invariant]
    spec fn needs_runtime(self) -> bool {
        tensorrt_available()
    }

    /// Creates a new ONNX parser for the given network. No logger exists in
    /// this build, so no call reaches this and none returns.
    pub fn new(network: &mut NetworkDefinition, logger: &Logger) -> (r: Result<Self>)
        ensures
            tensorrt_available(),
    {
        proof {
            use_type_invariant(logger);
        }
        Err(runtime_unavailable())
    }

    /// Parses an ONNX model from bytes. No parser exists in this build, so no
    /// call reaches this and none returns.
    pub fn parse(&self, model_bytes: &[u8]) -> (r: Result<()>)
        ensures
            tensorrt_available(),
    {
        proof {
            use_type_invariant(self);
        }
        Err(runtime_unavailable())
    }
}

} // verus!
