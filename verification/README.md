# trtx

Rust bindings to NVIDIA TensorRT-RTX, with the library's logic verified by Verus.

- `src/` is the verified library. This build carries no TensorRT-RTX or CUDA
  runtime: `Logger::new` fails with an error that explains how to get one, and
  the handles that need a logger or a device (builder, network, tensor,
  engine, runtime, parser, device buffer) carry a type invariant that no value
  of them can meet, so Verus proves that none is ever made. `src/c_api.rs`
  holds the decisions that the binding takes on what the C API answers: the
  error of each failed call, encoding names as C strings, reading returned
  names as UTF-8, and taking a tensor's dimensions. `src/decimal.rs` writes
  integers in decimal for the error messages.
- `app/` holds what stands around the library: the end-to-end executor, whose
  tensors carry `f32` data, and the handles that call the C API through the
  `trtx_sys` bindings and pass its answers to `trtx::c_api`, and the calls
  that pass raw device pointers.
- `tests/` runs the library on concrete values.
