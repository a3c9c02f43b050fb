//! Bindings to NVIDIA TensorRT-RTX for deep learning inference on NVIDIA GPUs.
//!
//! This build carries no TensorRT-RTX or CUDA runtime: creating a [`Logger`]
//! fails with an explanatory error, and every handle that needs a logger or a
//! device can never be obtained. Besides that entry point, the crate holds the
//! checked logic that turns what the TensorRT-RTX C API answers into results:
//! error messages, C string encoding and decoding, dimension lists and memory
//! pool codes.

pub mod builder;
pub mod c_api;
pub mod cuda;
pub mod decimal;
pub mod error;
pub mod executor;
pub mod logger;
pub mod network_flags;
pub mod onnx_parser;
pub mod runtime;

pub use builder::{Builder, BuilderConfig, MemoryPoolType, NetworkDefinition, Tensor};
pub use cuda::{synchronize, DeviceBuffer};
pub use error::{Error, Result};
pub use logger::{LogHandler, Logger, Severity, StderrLogger};
pub use onnx_parser::OnnxParser;
pub use runtime::{CudaEngine, ExecutionContext, Runtime};
