//! Kernels and model compiler of a quantized inference engine.
pub mod activation;
pub mod compiler;
pub mod ops;
pub mod quantize;
pub mod sums;
pub mod tensor;
