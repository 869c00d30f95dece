pub mod call_laws;
pub mod constants;
pub mod conv_1d;
pub mod conversion;
pub mod fold;
pub mod fold_laws;
pub mod fully_connected;
pub mod layer_laws;
pub mod model;
pub mod model_laws;
pub mod normalize;
pub mod normalize_laws;
pub mod outcome;
pub mod plan;
pub mod plan_laws;
pub mod schema;
pub mod schema_laws;
pub mod shape;
pub mod shape_laws;
pub mod step_laws;
pub mod tensor;
pub mod view_laws;
