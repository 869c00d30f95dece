//! The views of the compiler's values keep everything that they hold: what a
//! contract says of a view, it says of the value.
use crate::compiler::constants::ConstantError;
use crate::compiler::conv_1d::Conv1DError;
use crate::compiler::conversion::{Conversion, ConversionError};
use crate::compiler::fold;
use crate::compiler::fold::{FoldError, FoldedGraph, FoldedOp, Value};
use crate::compiler::model::{ModelError, ModelPlan, ZeroPoints, ZeroPointsView};
use crate::compiler::normalize::RankError;
use crate::compiler::outcome;
use crate::compiler::plan::{Failure, InputError, InputPlan, LayerPlan, Step};
use crate::compiler::shape::{AxisError, ResolveError, SliceError};
use vstd::prelude::*;

verus! {

/// The outcome of a step is seen as a success by the view of its value, as an
/// error by the view of its error, and as neither where there is none.
pub proof fn law_outcomes<T: View, E: View>(held: Option<Result<T, E>>)
    ensures
        match (held, outcome::view_of(held)) {
            (None, None) => true,
            (Some(Ok(value)), Some(Ok(seen))) => seen == value@,
            (Some(Err(error)), Some(Err(seen))) => seen == error@,
            _ => false,
        },
{
}

/// An error that holds no vector is seen as it is.
pub proof fn law_plain_errors(axis: AxisError, slice: SliceError, constant: ConstantError)
    ensures
        axis@ == axis,
        slice@ == slice,
        constant@ == constant,
{
}

/// A refused reshape target is seen with all that it holds.
pub proof fn law_resolve_errors(held: ResolveError<Vec<i64>>)
    ensures
        match (held, held@) {
            (ResolveError::ManyUnknowns, ResolveError::ManyUnknowns) => true,
            (
                ResolveError::Indivisible { total: total_a, known: known_a },
                ResolveError::Indivisible { total: total_b, known: known_b },
            ) => total_b == total_a && known_b == known_a,
            (
                ResolveError::InvalidDimension { dim: dim_a },
                ResolveError::InvalidDimension { dim: dim_b },
            ) => dim_b == dim_a,
            (
                ResolveError::CountMismatch { resolved: resolved_a, count: count_a, total: total_a },
                ResolveError::CountMismatch { resolved: resolved_b, count: count_b, total: total_b },
            ) => resolved_b == resolved_a@ && count_b == count_a && total_b == total_a,
            _ => false,
        },
{
}

/// A refused rank is seen with its place and its shape.
pub proof fn law_rank_errors(held: RankError<Vec<usize>>)
    ensures
        match (held, held@) {
            (
                RankError::OperatorOutput { shape: shape_a },
                RankError::OperatorOutput { shape: shape_b },
            ) => shape_b == shape_a@,
            (
                RankError::WindowInput { shape: shape_a },
                RankError::WindowInput { shape: shape_b },
            ) => shape_b == shape_a@,
            (
                RankError::OperatorInput { shape: shape_a },
                RankError::OperatorInput { shape: shape_b },
            ) => shape_b == shape_a@,
            (
                RankError::ModelOutput { shape: shape_a },
                RankError::ModelOutput { shape: shape_b },
            ) => shape_b == shape_a@,
            _ => false,
        },
{
}

/// A refused conversion is seen with its shapes and counts.
pub proof fn law_conversion_errors(held: ConversionError<Vec<usize>>)
    ensures
        match (held, held@) {
            (
                ConversionError::CountMismatch { from: from_a, to: to_a, from_count: from_count_a, to_count: to_count_a },
                ConversionError::CountMismatch { from: from_b, to: to_b, from_count: from_count_b, to_count: to_count_b },
            ) => from_b == from_a@ && to_b == to_a@ && from_count_b == from_count_a && to_count_b == to_count_a,
            (
                ConversionError::Batch { from: from_a, to: to_a },
                ConversionError::Batch { from: from_b, to: to_b },
            ) => from_b == from_a@ && to_b == to_a@,
            (
                ConversionError::Unsupported { from: from_a, to: to_a },
                ConversionError::Unsupported { from: from_b, to: to_b },
            ) => from_b == from_a@ && to_b == to_a@,
            _ => false,
        },
{
}

/// A refused operator is seen with all that its error holds.
pub proof fn law_fold_errors(held: FoldError<Vec<usize>, Vec<i64>>)
    ensures
        match (held, held@) {
            (
                FoldError::ShapeTensor { label: label_a, index: index_a },
                FoldError::ShapeTensor { label: label_b, index: index_b },
            ) => label_b == label_a && index_b == index_a,
            (
                FoldError::NotProduced { label: label_a, index: index_a, tensor: tensor_a },
                FoldError::NotProduced { label: label_b, index: index_b, tensor: tensor_b },
            ) => label_b == label_a && index_b == index_a && tensor_b == tensor_a,
            (
                FoldError::MissingAxis { index: index_a },
                FoldError::MissingAxis { index: index_b },
            ) => index_b == index_a,
            (
                FoldError::OperatorConstant { label: label_a, index: index_a, error: error_a },
                FoldError::OperatorConstant { label: label_b, index: index_b, error: error_b },
            ) => label_b == label_a && index_b == index_a && error_b == error_a,
            (
                FoldError::Axis { index: index_a, error: error_a, shape: shape_a },
                FoldError::Axis { index: index_b, error: error_b, shape: shape_b },
            ) => index_b == index_a && error_b == error_a && shape_b == shape_a@,
            (
                FoldError::MissingShape { index: index_a },
                FoldError::MissingShape { index: index_b },
            ) => index_b == index_a,
            (
                FoldError::Resolve { index: index_a, error: error_a, shape: shape_a, dims: dims_a },
                FoldError::Resolve { index: index_b, error: error_b, shape: shape_b, dims: dims_b },
            ) => index_b == index_a && error_b == error_a@ && shape_b == shape_a@ && dims_b == dims_a@,
            (
                FoldError::MissingSliceInputs { index: index_a },
                FoldError::MissingSliceInputs { index: index_b },
            ) => index_b == index_a,
            (
                FoldError::NotShapeTensor { index: index_a },
                FoldError::NotShapeTensor { index: index_b },
            ) => index_b == index_a,
            (
                FoldError::MissingSliceOptions { index: index_a },
                FoldError::MissingSliceOptions { index: index_b },
            ) => index_b == index_a,
            (
                FoldError::UnsupportedMasks { index: index_a },
                FoldError::UnsupportedMasks { index: index_b },
            ) => index_b == index_a,
            (
                FoldError::Slice { index: index_a, error: error_a, dims: dims_a },
                FoldError::Slice { index: index_b, error: error_b, dims: dims_b },
            ) => index_b == index_a && error_b == error_a && dims_b == dims_a@,
            (
                FoldError::PackAxis { index: index_a, axis: axis_a },
                FoldError::PackAxis { index: index_b, axis: axis_b },
            ) => index_b == index_a && axis_b == axis_a,
            (
                FoldError::Branching { kind: kind_a, index: index_a },
                FoldError::Branching { kind: kind_b, index: index_b },
            ) => kind_b == kind_a && index_b == index_a,
            (
                FoldError::OperatorShape { kind: kind_a, index: index_a, error: error_a },
                FoldError::OperatorShape { kind: kind_b, index: index_b, error: error_b },
            ) => kind_b == kind_a && index_b == index_a && error_b == error_a@,
            (
                FoldError::Unsupported { kind: kind_a, index: index_a },
                FoldError::Unsupported { kind: kind_b, index: index_b },
            ) => kind_b == kind_a && index_b == index_a,
            (
                FoldError::OutputShape { error: error_a },
                FoldError::OutputShape { error: error_b },
            ) => error_b == error_a@,
            (FoldError::OutputNotProduced, FoldError::OutputNotProduced) => true,
            _ => false,
        },
{
}

/// A refused convolution is seen with all that its error holds.
pub proof fn law_conv_1d_errors(held: Conv1DError<Vec<usize>>)
    ensures
        match (held, held@) {
            (
                Conv1DError::FiltersRank { index: index_a, shape: shape_a },
                Conv1DError::FiltersRank { index: index_b, shape: shape_b },
            ) => index_b == index_a && shape_b == shape_a@,
            (
                Conv1DError::FiltersHeight { index: index_a, height: height_a },
                Conv1DError::FiltersHeight { index: index_b, height: height_b },
            ) => index_b == index_a && height_b == height_a,
            (
                Conv1DError::Input { index: index_a, shape: shape_a },
                Conv1DError::Input { index: index_b, shape: shape_b },
            ) => index_b == index_a && shape_b == shape_a@,
            (
                Conv1DError::Channels { index: index_a, filters: filters_a, input: input_a },
                Conv1DError::Channels { index: index_b, filters: filters_b, input: input_b },
            ) => index_b == index_a && filters_b == filters_a && input_b == input_a,
            (
                Conv1DError::StrideHeight { index: index_a, stride_h: stride_h_a },
                Conv1DError::StrideHeight { index: index_b, stride_h: stride_h_b },
            ) => index_b == index_a && stride_h_b == stride_h_a,
            (
                Conv1DError::EmptyOutput { index: index_a, timesteps: timesteps_a, kernel: kernel_a },
                Conv1DError::EmptyOutput { index: index_b, timesteps: timesteps_b, kernel: kernel_b },
            ) => index_b == index_a && timesteps_b == timesteps_a && kernel_b == kernel_a,
            (
                Conv1DError::Output { index: index_a, shape: shape_a },
                Conv1DError::Output { index: index_b, shape: shape_b },
            ) => index_b == index_a && shape_b == shape_a@,
            (
                Conv1DError::Geometry { index: index_a, shape: shape_a, timesteps: timesteps_a, kernel: kernel_a, stride: stride_a, same: same_a, expected: expected_a, filters: filters_a },
                Conv1DError::Geometry { index: index_b, shape: shape_b, timesteps: timesteps_b, kernel: kernel_b, stride: stride_b, same: same_b, expected: expected_b, filters: filters_b },
            ) => index_b == index_a && shape_b == shape_a@ && timesteps_b == timesteps_a && kernel_b == kernel_a && stride_b == stride_a && same_b == same_a && expected_b == expected_a && filters_b == filters_a,
            _ => false,
        },
{
}

/// A refused model input is seen with what is refused of it.
pub proof fn law_input_errors(held: InputError<Vec<usize>>)
    ensures
        match (held, held@) {
            (
                InputError::Type { type_: type__a },
                InputError::Type { type_: type__b },
            ) => type__b == type__a,
            (
                InputError::Batch { shape: shape_a },
                InputError::Batch { shape: shape_b },
            ) => shape_b == shape_a@,
            (
                InputError::Rank { shape: shape_a },
                InputError::Rank { shape: shape_b },
            ) => shape_b == shape_a@,
            _ => false,
        },
{
}

/// A step is seen with its kernel, its position and its shapes.
pub proof fn law_steps(held: Step<Vec<usize>>)
    ensures
        match (held, held@) {
            (
                Step::Reshape { shape: shape_a },
                Step::Reshape { shape: shape_b },
            ) => shape_b == shape_a@,
            (
                Step::Layer { kind: kind_a, index: index_a, input_shape: input_shape_a, output_shape: output_shape_a },
                Step::Layer { kind: kind_b, index: index_b, input_shape: input_shape_b, output_shape: output_shape_b },
            ) => kind_b == kind_a && index_b == index_a && input_shape_b == input_shape_a@ && output_shape_b == output_shape_a@,
            _ => false,
        },
{
}

/// A failure is seen with all that it holds.
pub proof fn law_failures(held: Failure<Vec<usize>>)
    ensures
        match (held, held@) {
            (
                Failure::Conversion { kind: kind_a, index: index_a, error: error_a },
                Failure::Conversion { kind: kind_b, index: index_b, error: error_b },
            ) => kind_b == kind_a && index_b == index_a && error_b == error_a@,
            (Failure::Count, Failure::Count) => true,
            (
                Failure::Filters { index: index_a },
                Failure::Filters { index: index_b },
            ) => index_b == index_a,
            (
                Failure::Operator { kind: kind_a },
                Failure::Operator { kind: kind_b },
            ) => kind_b == kind_a,
            (
                Failure::Output { error: error_a },
                Failure::Output { error: error_b },
            ) => error_b == error_a@,
            (Failure::OutputTensor, Failure::OutputTensor) => true,
            (
                Failure::OutputType { type_: type__a },
                Failure::OutputType { type_: type__b },
            ) => type__b == type__a,
            (
                Failure::OutputRank { rank: rank_a },
                Failure::OutputRank { rank: rank_b },
            ) => rank_b == rank_a,
            _ => false,
        },
{
}

/// What is known of a tensor is seen with its origin and its dimensions.
pub proof fn law_values(held: Value<Vec<usize>, Vec<i64>>)
    ensures
        match (held, held@) {
            (
                Value::Data { origin: origin_a, shape: shape_a },
                Value::Data { origin: origin_b, shape: shape_b },
            ) => origin_b == origin_a && shape_b == shape_a@,
            (Value::Dims(dims_a), Value::Dims(dims_b)) => dims_b == dims_a@,
            _ => false,
        },
{
}

/// A table of tensors is seen entry by entry.
pub proof fn law_tables(held: Seq<Option<Value<Vec<usize>, Vec<i64>>>>)
    ensures
        fold::table(held).len() == held.len(),
        forall|p: int|
            0 <= p < held.len() ==> match (held[p], #[trigger] fold::table(held)[p]) {
                (Some(value), Some(seen)) => seen == value@,
                (None, None) => true,
                _ => false,
            },
{
}

/// A folded operator is seen with its position, its kind and its shapes.
pub proof fn law_folded_operators(held: FoldedOp)
    ensures
        held@.index == held.index,
        held@.kind == held.kind,
        held@.input_shape == held.input_shape@,
        held@.output_shape == held.output_shape@,
{
}

/// A folded graph is seen operator by operator, in order.
pub proof fn law_folded_graphs(held: FoldedGraph)
    ensures
        held@.ops.len() == held.ops@.len(),
        forall|k: int| 0 <= k < held.ops@.len() ==> #[trigger] held@.ops[k] == held.ops@[k]@,
        held@.ops == fold::op_views(held.ops@),
        held@.output_shape == held.output_shape@,
{
}

/// A conversion is seen reshape by reshape, in order.
pub proof fn law_conversions(held: Conversion)
    ensures
        held@.len() == held.steps@.len(),
        forall|k: int| 0 <= k < held.steps@.len() ==> #[trigger] held@[k] == held.steps@[k]@,
{
}

/// A planned input is seen with its elements and its shapes.
pub proof fn law_planned_inputs(held: InputPlan<Vec<usize>>)
    ensures
        held@.element == held.element,
        held@.raw_shape == held.raw_shape@,
        held@.shape == held.shape@,
        held@.user_shape == held.user_shape@,
        held@.relabeled == held.relabeled,
{
}

/// Planned layers are seen step by step, in order, with their ending.
pub proof fn law_planned_layers(held: LayerPlan<Vec<Step<Vec<usize>>>, Vec<usize>>)
    ensures
        held@.steps.len() == held.steps@.len(),
        forall|k: int| 0 <= k < held.steps@.len() ==> #[trigger] held@.steps[k] == held.steps@[k]@,
        match (held.ending, held@.ending) {
            (Ok(end), Ok(seen)) => seen.element == end.element && seen.shape == end.shape@,
            (Err(failure), Err(seen)) => seen == failure@,
            _ => false,
        },
{
}

/// Zero points are seen in their element type.
pub proof fn law_zero_points(held: ZeroPoints)
    ensures
        match (held, held@) {
            (ZeroPoints::I8(values), ZeroPointsView::I8(seen)) => seen == values@,
            (ZeroPoints::U8(values), ZeroPointsView::U8(seen)) => seen == values@,
            _ => false,
        },
{
}

/// A planned model is seen part by part.
pub proof fn law_planned_models(held: ModelPlan)
    ensures
        held@.input == held.input@,
        held@.zero_points == held.zero_points@,
        held@.layers == held.layers@,
{
}

/// A refused model is seen with its error.
pub proof fn law_model_errors(held: ModelError<Vec<usize>, Vec<i64>>)
    ensures
        match (held, held@) {
            (ModelError::Input(error), ModelError::Input(seen)) => seen == error@,
            (ModelError::Fold(error), ModelError::Fold(seen)) => seen == error@,
            _ => false,
        },
{
}

} // verus!
