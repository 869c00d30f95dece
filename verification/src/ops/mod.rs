//! Operators on quantized tensors.
pub mod accumulate;
pub mod accumulate_laws;
pub mod call_laws;
pub mod conv_1d;
pub mod conv_1d_formula;
pub mod conv_1d_laws;
pub mod fully_connected;
pub mod fully_connected_formula;
pub mod fully_connected_laws;
