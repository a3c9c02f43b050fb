//! The high-level path that runs an ONNX model end to end.

use vstd::prelude::*;

use crate::error::Error;

verus! {

/// The message of the error that running a model gives in this build.
pub open spec fn executor_unavailable_message() -> Seq<char> {
    "TensorRT-RTX not available in mock mode. Rebuild without mock: cargo build --no-default-features"@
}

/// The error that running an ONNX model gives in this build, which carries no
/// TensorRT-RTX runtime.
pub fn executor_unavailable() -> (e: Error)
    ensures
        e.is_runtime_with(executor_unavailable_message()),
{
    Error::runtime(
        "TensorRT-RTX not available in mock mode. Rebuild without mock: cargo build --no-default-features",
    )
}

} // verus!
