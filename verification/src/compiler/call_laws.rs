//! What a call of each function of the compiler gives: the laws of the
//! other files speak of spec functions, and these join them to the calls.
use crate::activation::FusedActivation;
use crate::compiler::constants;
use crate::compiler::constants::ConstantError;
use crate::compiler::conv_1d;
use crate::compiler::conv_1d::{Conv1DError, TokenConv1D};
use crate::compiler::conversion;
use crate::compiler::conversion::{Conversion, ConversionError};
use crate::compiler::fold;
use crate::compiler::fold::{FoldError, FoldedGraph, FoldedOp, Label, Value};
use crate::compiler::fully_connected;
use crate::compiler::fully_connected::{Arithmetic, TokenFullyConnected};
use crate::compiler::layer_laws;
use crate::compiler::model;
use crate::compiler::model::{ModelError, ModelPlan};
use crate::compiler::normalize;
use crate::compiler::normalize::RankError;
use crate::compiler::outcome;
use crate::compiler::plan;
use crate::compiler::plan::{Failure, InputError, InputPlan, LayerKind, LayerPlan, Step};
use crate::compiler::schema;
use crate::compiler::schema::{
    Buffer, BuiltinOperator, Conv2DOptions, ElementType, Graph, Operator, OperatorCode, Tensor,
    TensorType,
};
use crate::compiler::shape;
use crate::compiler::shape::{AxisError, ResolveError, SliceError};
use crate::compiler::tensor;
use crate::compiler::tensor::{TokenTensor2D, TokenTensor4D};
use crate::ops;
use crate::quantize;
use crate::quantize::Quantized;
use crate::tensor::TensorViewPadding;
use vstd::prelude::*;

verus! {

/// A product of dimensions is the number of elements, where it can be
/// computed.
pub proof fn law_products(dims: &[usize], checked: Option<usize>, plain: usize)
    ensures
        call_requires(shape::checked_product, (dims,)),
        call_ensures(shape::checked_product, (dims,), checked) ==> {
            &&& checked is Some <==> shape::count_fits(dims@)
            &&& (checked matches Some(product) ==> product == shape::count(dims@))
        },
        shape::count_fits(dims@) ==> call_requires(shape::product, (dims,)),
        call_ensures(shape::product, (dims,), plain) ==> plain == shape::count(dims@),
{
}

/// A target resolves as its law says.
pub proof fn law_resolved_shapes(
    dims: &[i64],
    old_len: usize,
    checked: Option<Result<Vec<usize>, ResolveError<Vec<i64>>>>,
    plain: Result<Vec<usize>, ResolveError<Vec<i64>>>,
)
    ensures
        call_requires(shape::checked_resolve_shape, (dims, old_len)),
        call_ensures(shape::checked_resolve_shape, (dims, old_len), checked) ==> outcome::view_of(checked) == shape::resolution(dims@, old_len),
        shape::resolution(dims@, old_len) is Some ==> call_requires(shape::resolve_shape, (dims, old_len)),
        call_ensures(shape::resolve_shape, (dims, old_len), plain) ==> outcome::view_of(Some(plain)) == shape::resolution(dims@, old_len),
{
}

/// An axis is inserted as its law says.
pub proof fn law_expanded_shapes(
    dims: &[usize],
    axis: i32,
    checked: Option<Result<Vec<usize>, AxisError>>,
    plain: Result<Vec<usize>, AxisError>,
)
    ensures
        call_requires(shape::checked_expand_shape, (dims, axis)),
        call_ensures(shape::checked_expand_shape, (dims, axis), checked) ==> outcome::view_of(checked) == shape::expansion(dims@, axis),
        shape::expansion(dims@, axis) is Some ==> call_requires(shape::expand_shape, (dims, axis)),
        call_ensures(shape::expand_shape, (dims, axis), plain) ==> outcome::view_of(Some(plain)) == shape::expansion(dims@, axis),
{
}

/// A slice is taken as its law says.
pub proof fn law_slices(
    dims: &[i64],
    begin: &[i32],
    end: &[i32],
    strides: &[i32],
    shrink: bool,
    checked: Option<Result<Vec<i64>, SliceError>>,
    plain: Result<Vec<i64>, SliceError>,
)
    ensures
        call_requires(shape::checked_strided_slice, (dims, begin, end, strides, shrink)),
        call_ensures(shape::checked_strided_slice, (dims, begin, end, strides, shrink), checked) ==> outcome::view_of(checked) == shape::slice_selection(dims@, begin@, end@, strides@, shrink),
        shape::slice_selection(dims@, begin@, end@, strides@, shrink) is Some ==> call_requires(shape::strided_slice, (dims, begin, end, strides, shrink)),
        call_ensures(shape::strided_slice, (dims, begin, end, strides, shrink), plain) ==> outcome::view_of(Some(plain)) == shape::slice_selection(dims@, begin@, end@, strides@, shrink),
{
}

/// An operator input is normalized as its law says.
pub proof fn law_normalized_inputs(
    kind: BuiltinOperator,
    raw: Vec<usize>,
    checked: Option<Result<Vec<usize>, RankError<Vec<usize>>>>,
    plain: Result<Vec<usize>, RankError<Vec<usize>>>,
)
    ensures
        call_requires(normalize::checked_normalize_real_input, (kind, raw)),
        call_ensures(normalize::checked_normalize_real_input, (kind, raw), checked) ==> outcome::view_of(checked) == normalize::normalized_input(kind, raw@),
        normalize::normalized_input(kind, raw@) is Some ==> call_requires(normalize::normalize_real_input, (kind, raw)),
        call_ensures(normalize::normalize_real_input, (kind, raw), plain) ==> outcome::view_of(Some(plain)) == normalize::normalized_input(kind, raw@),
{
}

/// A model output is normalized as its law says.
pub proof fn law_normalized_model_outputs(
    raw: &[usize],
    checked: Option<Result<Vec<usize>, RankError<Vec<usize>>>>,
    plain: Result<Vec<usize>, RankError<Vec<usize>>>,
)
    ensures
        call_requires(normalize::checked_normalize_model_output, (raw,)),
        call_ensures(normalize::checked_normalize_model_output, (raw,), checked) ==> outcome::view_of(checked) == normalize::normalized_model_output(raw@),
        normalize::normalized_model_output(raw@) is Some ==> call_requires(normalize::normalize_model_output, (raw,)),
        call_ensures(normalize::normalize_model_output, (raw,), plain) ==> outcome::view_of(Some(plain)) == normalize::normalized_model_output(raw@),
{
}

/// An operator output is normalized as its law says.
pub proof fn law_normalized_outputs(
    kind: BuiltinOperator,
    raw: Vec<usize>,
    normalized: Result<Vec<usize>, RankError<Vec<usize>>>,
)
    ensures
        call_requires(normalize::normalize_real_output, (kind, raw)),
        call_ensures(normalize::normalize_real_output, (kind, raw), normalized) ==> match (
            normalized,
            normalize::normalized_output(kind, raw@),
        ) {
            (Ok(shape), Ok(expected)) => shape@ == expected,
            (Err(error), Err(expected)) => error@ == expected,
            _ => false,
        },
{
}

/// A constant tensor is read as its law says.
pub proof fn law_constants(
    tensors: &[Tensor],
    buffers: &[Buffer],
    index: usize,
    checked: Option<Result<Vec<i32>, ConstantError>>,
    plain: Result<Vec<i32>, ConstantError>,
)
    ensures
        call_requires(constants::checked_read_i32s, (tensors, buffers, index)),
        call_ensures(constants::checked_read_i32s, (tensors, buffers, index), checked) ==> outcome::view_of(checked) == constants::constant(tensors@, buffers@, index),
        constants::constant(tensors@, buffers@, index) is Some ==> call_requires(constants::read_i32s, (tensors, buffers, index)),
        call_ensures(constants::read_i32s, (tensors, buffers, index), plain) ==> outcome::view_of(Some(plain)) == constants::constant(tensors@, buffers@, index),
{
}

/// A scalar is read as its law says.
pub proof fn law_scalars(
    tensors: &[Tensor],
    buffers: &[Buffer],
    index: usize,
    checked: Option<Result<i32, ConstantError>>,
    plain: Result<i32, ConstantError>,
)
    ensures
        call_requires(constants::checked_read_i32_scalar, (tensors, buffers, index)),
        call_ensures(constants::checked_read_i32_scalar, (tensors, buffers, index), checked) ==> outcome::view_of(checked) == constants::scalar_constant(tensors@, buffers@, index),
        constants::scalar_constant(tensors@, buffers@, index) is Some ==> call_requires(constants::read_i32_scalar, (tensors, buffers, index)),
        call_ensures(constants::read_i32_scalar, (tensors, buffers, index), plain) ==> outcome::view_of(Some(plain)) == constants::scalar_constant(tensors@, buffers@, index),
{
}

/// Bytes are decoded as their law says.
pub proof fn law_decoded_bytes(bytes: &[u8], values: Vec<i32>)
    ensures
        call_requires(constants::le_i32s, (bytes,)),
        call_ensures(constants::le_i32s, (bytes,), values) ==> values@ == constants::le_values(
            bytes@,
        ),
{
}

/// Two shapes are converted as their law says.
pub proof fn law_conversions(
    from: &[usize],
    to: &[usize],
    checked: Option<Result<Conversion, ConversionError<Vec<usize>>>>,
    plain: Result<Conversion, ConversionError<Vec<usize>>>,
)
    ensures
        call_requires(conversion::checked_conversion_steps, (from, to)),
        call_ensures(conversion::checked_conversion_steps, (from, to), checked) ==> outcome::view_of(checked) == conversion::conversion(from@, to@),
        conversion::conversion(from@, to@) is Some ==> call_requires(conversion::conversion_steps, (from, to)),
        call_ensures(conversion::conversion_steps, (from, to), plain) ==> outcome::view_of(Some(plain)) == conversion::conversion(from@, to@),
{
}

/// Two shapes are the same where their dimensions are.
pub proof fn law_same_shapes(a: &[usize], b: &[usize], same: bool)
    ensures
        call_requires(conversion::same_shape, (a, b)),
        call_ensures(conversion::same_shape, (a, b), same) ==> (same <==> a@ == b@),
{
}

/// Codes stand for what their laws say.
pub proof fn law_codes(
    code: i32,
    option: i8,
    kind: BuiltinOperator,
    value: i32,
    type_: TensorType,
    padding: Option<TensorViewPadding>,
    activation: Option<FusedActivation>,
)
    ensures
        call_requires(BuiltinOperator::from_code, (code,)),
        call_ensures(BuiltinOperator::from_code, (code,), kind) ==> kind == schema::kind_of_code(
            code,
        ),
        call_requires(BuiltinOperator::code, (kind,)),
        call_ensures(BuiltinOperator::code, (kind,), value) ==> value == kind.code_value(),
        call_requires(TensorType::from_code, (option,)),
        call_ensures(TensorType::from_code, (option,), type_) ==> type_ == schema::type_of_code(
            option,
        ),
        call_requires(schema::padding_from_code, (option,)),
        call_ensures(schema::padding_from_code, (option,), padding) ==> padding
            == schema::padding_of_code(option),
        call_requires(schema::activation_from_code, (option,)),
        call_ensures(schema::activation_from_code, (option,), activation) ==> activation
            == schema::activation_of_code(option),
{
}

/// The tables of a model are read as their laws say.
pub proof fn law_tables(
    graph: &Graph,
    operator: &Operator,
    tensor: &Tensor,
    codes: &[OperatorCode],
    vector: &Option<Vec<i32>>,
    kind: BuiltinOperator,
    name: String,
    shape: Vec<usize>,
    found: Vec<i32>,
    element: Option<Result<ElementType, TensorType>>,
    quantized: Result<ElementType, TensorType>,
)
    ensures
        operator.opcode_index < codes@.len() ==> call_requires(
            schema::builtin_kind,
            (codes, operator),
        ),
        call_ensures(schema::builtin_kind, (codes, operator), kind) ==> kind
            == schema::resolved_kind(codes@[operator.opcode_index as int]),
        call_requires(schema::tensor_name, (tensor,)),
        call_ensures(schema::tensor_name, (tensor,), name) ==> name@ == schema::name_of(*tensor),
        call_requires(schema::tensor_shape, (tensor,)),
        call_ensures(schema::tensor_shape, (tensor,), shape) ==> shape@ == schema::shape_of(
            *tensor,
        ),
        call_requires(schema::entries_of, (vector,)),
        call_ensures(schema::entries_of, (vector,), found) ==> found@ == schema::entries(*vector),
        call_requires(schema::checked_operator_element, (graph, operator)),
        call_ensures(schema::checked_operator_element, (graph, operator), element) ==> element
            == schema::operator_element(*graph, *operator),
        call_requires(TensorType::quantized, (tensor.type_,)),
        call_ensures(TensorType::quantized, (tensor.type_,), quantized) ==> match quantized {
            Ok(kept) => tensor.type_.element() == Some(kept),
            Err(refused) => tensor.type_.element() is None && refused == tensor.type_,
        },
{
}

/// The helpers of the layers do as their laws say.
pub proof fn law_layer_helpers<A: Copy, S: Copy>(
    values: &[A],
    channel: usize,
    value: A,
    repeats: Vec<A>,
    n: usize,
    one: S,
    bias: TokenTensor2D<i32, S>,
    inputs: &[i32],
    index: Option<usize>,
    rows: usize,
    split: Option<Vec<Vec<A>>>,
)
    ensures
        values@.len() > 0 ==> call_requires(tensor::channel_entry::<A>, (values, channel)),
        call_ensures(tensor::channel_entry::<A>, (values, channel), value) ==> value
            == quantize::per_channel(values@, channel as int),
        call_requires(tensor::repeated::<A>, (value, n)),
        call_ensures(tensor::repeated::<A>, (value, n), repeats) ==> repeats@.len() == n
            && forall|i: int| 0 <= i < n ==> #[trigger] repeats@[i] == value,
        call_requires(tensor::zero_bias::<S>, (n, one)),
        call_ensures(tensor::zero_bias::<S>, (n, one), bias) ==> tensor::is_zero_bias(
            bias,
            n as nat,
            one,
        ),
        call_requires(tensor::bias_input, (inputs,)),
        call_ensures(tensor::bias_input, (inputs,), index) ==> index == tensor::bias_tensor(
            inputs@,
        ),
        call_requires(tensor::checked_columns::<A>, (values, n, rows)),
        call_ensures(tensor::checked_columns::<A>, (values, n, rows), split) ==> {
            &&& split is Some <==> values@.len() == n * rows
            &&& (split matches Some(columns) ==> columns@.len() == n && forall|j: int|
                0 <= j < n ==> (#[trigger] columns@[j])@ == tensor::column_of(
                    values@,
                    rows as int,
                    j,
                ))
        },
{
}

/// The data input of an operator is what its law says.
pub proof fn law_data_inputs(
    label: Label,
    index: usize,
    tensor_index: i32,
    values: &[Option<Value<Vec<usize>, Vec<i64>>>],
    data: Result<(usize, Vec<usize>), FoldError<Vec<usize>, Vec<i64>>>,
)
    ensures
        call_requires(fold::data_input, (label, index, tensor_index, values)),
        call_ensures(fold::data_input, (label, index, tensor_index, values), data) ==> match (
            data,
            fold::data_of(label, index, tensor_index, fold::table(values@)),
        ) {
            (Ok((origin, shape)), Ok((expected, dims))) => origin == expected && shape@ == dims,
            (Err(error), Err(expected)) => error@ == expected,
            _ => false,
        },
{
}

/// A graph is folded as its law says.
pub proof fn law_folds(
    graph: &Graph,
    input: usize,
    output: usize,
    raw: &[usize],
    checked: Option<Result<FoldedGraph, FoldError<Vec<usize>, Vec<i64>>>>,
    plain: Result<FoldedGraph, FoldError<Vec<usize>, Vec<i64>>>,
)
    ensures
        call_requires(fold::checked_fold, (graph, input, output, raw)),
        call_ensures(fold::checked_fold, (graph, input, output, raw), checked) ==> outcome::view_of(checked) == fold::folded(*graph, input, output, raw@),
        fold::folded(*graph, input, output, raw@) is Some ==> call_requires(fold::fold, (graph, input, output, raw)),
        call_ensures(fold::fold, (graph, input, output, raw), plain) ==> outcome::view_of(Some(plain)) == fold::folded(*graph, input, output, raw@),
{
}

/// The compiler counts the windows that the kernel counts.
pub proof fn law_window_counts(
    timesteps: usize,
    kernel: usize,
    stride: usize,
    same: bool,
    count: Option<usize>,
)
    ensures
        ({
            let padding = if same {
                TensorViewPadding::Same
            } else {
                TensorViewPadding::Valid
            };
            &&& ops::conv_1d::window_count_defined(
                timesteps as int,
                kernel as int,
                stride as int,
                padding,
            ) ==> call_requires(conv_1d::output_len, (timesteps, kernel, stride, same))
            &&& call_ensures(conv_1d::output_len, (timesteps, kernel, stride, same), count)
                ==> match (
                count,
                ops::conv_1d::window_count(
                    timesteps as int,
                    kernel as int,
                    stride as int,
                    padding,
                ),
            ) {
                (Some(n), Some(expected)) => n == expected,
                (None, None) => true,
                _ => false,
            }
        }),
{
}

/// The shapes of a convolution are checked as their laws say.
pub proof fn law_checked_shapes(
    index: usize,
    filters: &[usize],
    input: &[usize],
    output: &[usize],
    options: &Conv2DOptions,
    stride: Option<Result<usize, Conv1DError<Vec<usize>>>>,
)
    ensures
        call_requires(conv_1d::checked_plan_stride, (index, filters, input, output, options)),
        call_ensures(
            conv_1d::checked_plan_stride,
            (index, filters, input, output, options),
            stride,
        ) ==> outcome::view_of(stride) == conv_1d::planned_stride(
            index,
            filters@,
            input@,
            output@,
            *options,
        ),
{
}

/// A convolution along one axis that is built carries the padding, the
/// stride, the activation function and the tensors that it is built of, with
/// its biases rescaled; it is refused as its shapes are, and cannot be built
/// only where the windows cannot be counted or its biases not be converted.
pub proof fn law_built_convolutions<T, S: Copy, F: Fn(i32, S, S, S) -> i32>(
    input: &TokenTensor4D<T, S>,
    filters: TokenTensor4D<T, S>,
    biases: Option<TokenTensor2D<i32, S>>,
    output: TokenTensor4D<T, S>,
    options: &Conv2DOptions,
    index: usize,
    one: S,
    rescale: &F,
    checked: Option<Result<TokenConv1D<T, S>, Conv1DError<Vec<usize>>>>,
    plain: Result<TokenConv1D<T, S>, Conv1DError<Vec<usize>>>,
)
    requires
        forall|raw: i32, bias: S, sample: S, weight: S|
            call_requires(*rescale, (raw, bias, sample, weight)),
    ensures
        ({
            let args = (input, filters, biases, output, options, index, one, rescale);
            let planned = conv_1d::planned_stride(
                index,
                filters.shape@,
                input.shape@,
                output.shape@,
                *options,
            );
            &&& call_requires(TokenConv1D::<T, S>::checked_new::<F>, args)
            &&& call_ensures(TokenConv1D::<T, S>::checked_new::<F>, args, checked) ==> match (
                checked,
                planned,
            ) {
                (None, None) => true,
                (None, Some(Ok(_))) => !conv_1d::bias_defined(biases, *input, filters),
                (Some(Err(error)), Some(Err(expected))) => error@ == expected,
                (Some(Ok(layer)), Some(Ok(stride))) => {
                    &&& layer.filters == filters
                    &&& layer.output == output
                    &&& layer.view_padding == options.padding
                    &&& layer.stride == options.stride_w as usize
                    &&& layer.fused_activation == options.fused_activation
                    &&& layer.index == index
                    &&& layer_laws::biases_are_rescaled(
                        layer.biases,
                        biases,
                        *input,
                        filters,
                        one,
                        *rescale,
                    )
                },
                _ => false,
            }
            &&& planned is Some && (planned matches Some(Ok(_)) ==> conv_1d::bias_defined(
                biases,
                *input,
                filters,
            )) ==> call_requires(TokenConv1D::<T, S>::new::<F>, args)
            &&& call_ensures(TokenConv1D::<T, S>::new::<F>, args, plain) && planned is Some
                ==> match (plain, planned->Some_0) {
                (Err(error), Err(expected)) => error@ == expected,
                (Ok(layer), Ok(stride)) => {
                    &&& layer.filters == filters
                    &&& layer.output == output
                    &&& layer.view_padding == options.padding
                    &&& layer.stride == options.stride_w as usize
                    &&& layer.fused_activation == options.fused_activation
                    &&& layer.index == index
                    &&& layer_laws::biases_are_rescaled(
                        layer.biases,
                        biases,
                        *input,
                        filters,
                        one,
                        *rescale,
                    )
                },
                _ => false,
            }
        }),
{
    let args = (input, filters, biases, output, options, index, one, rescale);
    let planned = conv_1d::planned_stride(
        index,
        filters.shape@,
        input.shape@,
        output.shape@,
        *options,
    );
    if let Some(Ok(stride)) = planned {
        if call_ensures(TokenConv1D::<T, S>::checked_new::<F>, args, checked) {
            if let Some(Ok(layer)) = checked {
                layer_laws::law_built_conv_1d(
                    layer,
                    *input,
                    filters,
                    biases,
                    output,
                    *options,
                    index,
                    stride,
                    one,
                    *rescale,
                );
            }
        }
        if call_ensures(TokenConv1D::<T, S>::new::<F>, args, plain) {
            if let Ok(layer) = plain {
                layer_laws::law_built_conv_1d(
                    layer,
                    *input,
                    filters,
                    biases,
                    output,
                    *options,
                    index,
                    stride,
                    one,
                    *rescale,
                );
            }
        }
    }
}

/// Biases are converted as their law says.
pub proof fn law_converted_biases<T, S: Copy, F: Fn(i32, S, S, S) -> i32>(
    biases: &TokenTensor2D<i32, S>,
    input: &TokenTensor4D<T, S>,
    filters: &TokenTensor4D<T, S>,
    one: S,
    rescale: &F,
    converted: Option<TokenTensor2D<i32, S>>,
)
    requires
        forall|raw: i32, bias: S, sample: S, weight: S|
            call_requires(*rescale, (raw, bias, sample, weight)),
        filters.shape@.len() > 0,
    ensures
        call_requires(
            TokenConv1D::<T, S>::to_accumulator_units::<F>,
            (biases, input, filters, one, rescale),
        ),
        call_ensures(
            TokenConv1D::<T, S>::to_accumulator_units::<F>,
            (biases, input, filters, one, rescale),
            converted,
        ) ==> match converted {
            None => !conv_1d::accumulator_units_defined(*biases, *input, *filters),
            Some(found) => layer_laws::biases_are_rescaled(
                found,
                Some(*biases),
                *input,
                *filters,
                one,
                *rescale,
            ),
        },
{
    if let Some(found) = converted {
        if call_ensures(
            TokenConv1D::<T, S>::to_accumulator_units::<F>,
            (biases, input, filters, one, rescale),
            converted,
        ) {
            layer_laws::law_converted_biases(found, *biases, *input, *filters, one, *rescale);
        }
    }
}

/// A correction is computed as its law says.
pub proof fn law_corrections<T: Quantized, S>(
    input: &TokenTensor2D<T, S>,
    weights: &TokenTensor2D<T, S>,
    j: usize,
    value: Option<i32>,
)
    requires
        weights.shape@.len() > 0,
    ensures
        call_requires(fully_connected::checked_correction::<T, S>, (input, weights, j)),
        call_ensures(fully_connected::checked_correction::<T, S>, (input, weights, j), value)
            ==> match value {
            None => !fully_connected::correction_defined(*input, *weights, j as int),
            Some(found) => found == input.zero_point@[0].value() * layer_laws::centered_weights(
                *weights,
                j as int,
            ),
        },
{
    layer_laws::law_correction_centers_the_weights(*input, *weights, j as int);
}

/// The constants of a fully connected layer are those of each of its outputs,
/// and are computed wherever they can be.
pub proof fn law_preprocessed_constants<
    T: Quantized,
    S: Copy,
    B: Fn(i32, S, S) -> S,
    M: Fn(S, S, S) -> S,
>(
    input: &TokenTensor2D<T, S>,
    weights: &TokenTensor2D<T, S>,
    biases: &TokenTensor2D<i32, S>,
    output: &TokenTensor2D<T, S>,
    one: S,
    arithmetic: &Arithmetic<B, M>,
    checked: Option<(Vec<S>, Vec<S>, Vec<i32>)>,
    plain: (Vec<S>, Vec<S>, Vec<i32>),
)
    requires
        forall|bias: i32, from: S, to: S| call_requires(arithmetic.bias_term, (bias, from, to)),
        forall|x: S, w: S, y: S| call_requires(arithmetic.multiplier, (x, w, y)),
    ensures
        ({
            let args = (input, weights, biases, output, arithmetic);
            let defined = fully_connected::preprocess_defined(*input, *weights, *biases, *output);
            &&& call_requires(TokenFullyConnected::<T, S>::checked_preprocess::<B, M>, args)
            &&& call_ensures(
                TokenFullyConnected::<T, S>::checked_preprocess::<B, M>,
                args,
                checked,
            ) ==> match checked {
                None => !defined,
                Some(constants) => layer_laws::constants_by_output(
                    constants,
                    *input,
                    *weights,
                    Some(*biases),
                    *output,
                    one,
                    *arithmetic,
                ),
            }
            &&& defined ==> call_requires(TokenFullyConnected::<T, S>::preprocess::<B, M>, args)
            &&& call_ensures(TokenFullyConnected::<T, S>::preprocess::<B, M>, args, plain)
                ==> layer_laws::constants_by_output(
                plain,
                *input,
                *weights,
                Some(*biases),
                *output,
                one,
                *arithmetic,
            )
        }),
{
    let args = (input, weights, biases, output, arithmetic);
    if call_ensures(TokenFullyConnected::<T, S>::checked_preprocess::<B, M>, args, checked) {
        if let Some(constants) = checked {
            layer_laws::law_constants_by_output(
                constants,
                *input,
                *weights,
                *biases,
                *output,
                one,
                *arithmetic,
            );
        }
    }
    if call_ensures(TokenFullyConnected::<T, S>::preprocess::<B, M>, args, plain) {
        layer_laws::law_constants_by_output(
            plain,
            *input,
            *weights,
            *biases,
            *output,
            one,
            *arithmetic,
        );
    }
}

/// A fully connected layer that is built carries its tensors, its activation
/// function, its position and the constants of each of its outputs, and is
/// built wherever these can be computed.
pub proof fn law_built_fully_connected<
    T: Quantized,
    S: Copy,
    B: Fn(i32, S, S) -> S,
    M: Fn(S, S, S) -> S,
>(
    input: &TokenTensor2D<T, S>,
    weights: TokenTensor2D<T, S>,
    biases: Option<TokenTensor2D<i32, S>>,
    output: TokenTensor2D<T, S>,
    fused_activation: FusedActivation,
    index: usize,
    one: S,
    arithmetic: &Arithmetic<B, M>,
    checked: Option<TokenFullyConnected<T, S>>,
    plain: TokenFullyConnected<T, S>,
)
    requires
        forall|bias: i32, from: S, to: S| call_requires(arithmetic.bias_term, (bias, from, to)),
        forall|x: S, w: S, y: S| call_requires(arithmetic.multiplier, (x, w, y)),
    ensures
        ({
            let args = (
                input,
                weights,
                biases,
                output,
                fused_activation,
                index,
                one,
                arithmetic,
            );
            let defined = fully_connected::layer_defined(*input, weights, biases, output);
            &&& call_requires(TokenFullyConnected::<T, S>::checked_new::<B, M>, args)
            &&& call_ensures(TokenFullyConnected::<T, S>::checked_new::<B, M>, args, checked)
                ==> match checked {
                None => !defined,
                Some(layer) => {
                    &&& layer.weights == weights
                    &&& layer.output == output
                    &&& layer.fused_activation == fused_activation
                    &&& layer.index == index
                    &&& layer_laws::constants_by_output(
                        layer.constants,
                        *input,
                        weights,
                        biases,
                        output,
                        one,
                        *arithmetic,
                    )
                },
            }
            &&& defined ==> call_requires(TokenFullyConnected::<T, S>::new::<B, M>, args)
            &&& call_ensures(TokenFullyConnected::<T, S>::new::<B, M>, args, plain) ==> {
                &&& plain.weights == weights
                &&& plain.output == output
                &&& plain.fused_activation == fused_activation
                &&& plain.index == index
                &&& layer_laws::constants_by_output(
                    plain.constants,
                    *input,
                    weights,
                    biases,
                    output,
                    one,
                    *arithmetic,
                )
            }
        }),
{
    let args = (input, weights, biases, output, fused_activation, index, one, arithmetic);
    if call_ensures(TokenFullyConnected::<T, S>::checked_new::<B, M>, args, checked) {
        if let Some(layer) = checked {
            layer_laws::law_built_fully_connected(
                layer,
                *input,
                weights,
                biases,
                output,
                fused_activation,
                index,
                one,
                *arithmetic,
            );
        }
    }
    if call_ensures(TokenFullyConnected::<T, S>::new::<B, M>, args, plain) {
        layer_laws::law_built_fully_connected(
            plain,
            *input,
            weights,
            biases,
            output,
            fused_activation,
            index,
            one,
            *arithmetic,
        );
    }
}

/// The parts of a plan are made as their laws say.
pub proof fn law_plans(
    graph: &Graph,
    input: usize,
    planned: Option<Result<InputPlan<Vec<usize>>, InputError<Vec<usize>>>>,
    zero_points: &[i64],
    signed: Vec<i8>,
    unsigned: Vec<u8>,
    operator: &Operator,
    tensors: &[Tensor],
    checked: Option<bool>,
    plain: bool,
    op: &FoldedOp,
    force_conv_2d: bool,
    kind: Result<LayerKind, Failure<Vec<usize>>>,
    folded: &FoldedGraph,
    output: usize,
    input_shape: &[usize],
    layers: LayerPlan<Vec<Step<Vec<usize>>>, Vec<usize>>,
)
    ensures
        call_requires(plan::checked_plan_input, (graph, input)),
        call_ensures(plan::checked_plan_input, (graph, input), planned) ==> outcome::view_of(
            planned,
        ) == plan::planned_input(*graph, input),
        call_requires(plan::zero_points_i8, (zero_points,)),
        call_ensures(plan::zero_points_i8, (zero_points,), signed) ==> signed@.len()
            == zero_points@.len() && forall|i: int|
            0 <= i < signed@.len() ==> #[trigger] signed@[i] == zero_points@[i] as i8,
        call_requires(plan::zero_points_u8, (zero_points,)),
        call_ensures(plan::zero_points_u8, (zero_points,), unsigned) ==> unsigned@.len()
            == zero_points@.len() && forall|i: int|
            0 <= i < unsigned@.len() ==> #[trigger] unsigned@[i] == zero_points@[i] as u8,
        call_requires(plan::checked_is_conv_1d, (operator, tensors)),
        call_ensures(plan::checked_is_conv_1d, (operator, tensors), checked) ==> checked
            == plan::strides_over_time(*operator, tensors@),
        plan::strides_over_time(*operator, tensors@) is Some ==> call_requires(
            plan::is_conv_1d,
            (operator, tensors),
        ),
        call_ensures(plan::is_conv_1d, (operator, tensors), plain) ==> Some(plain)
            == plan::strides_over_time(*operator, tensors@),
        op.index < graph.operators@.len() ==> call_requires(
            plan::layer_kind,
            (graph, op, force_conv_2d),
        ),
        call_ensures(plan::layer_kind, (graph, op, force_conv_2d), kind) ==> match (
            kind,
            plan::route(*graph, op@, force_conv_2d),
        ) {
            (Ok(found), Ok(expected)) => found == expected,
            (Err(failure), Err(expected)) => failure@ == expected,
            _ => false,
        },
        (forall|k: int|
            0 <= k < folded.ops@.len() ==> (#[trigger] folded.ops@[k]).index
                < graph.operators@.len()) ==> call_requires(
            plan::plan_layers,
            (graph, folded, output, input_shape, force_conv_2d),
        ),
        call_ensures(
            plan::plan_layers,
            (graph, folded, output, input_shape, force_conv_2d),
            layers,
        ) ==> layers@ == plan::planned_layers(
            *graph,
            folded@.ops,
            folded@.output_shape,
            output,
            input_shape@,
            force_conv_2d,
        ),
{
}

/// A model is compiled as its laws say.
pub proof fn law_models(
    graph: &Graph,
    input: usize,
    output: usize,
    force_conv_2d: bool,
    checked: Option<Result<ModelPlan, ModelError<Vec<usize>, Vec<i64>>>>,
    plain: Result<ModelPlan, ModelError<Vec<usize>, Vec<i64>>>,
)
    ensures
        call_requires(model::checked_model, (graph, input, output, force_conv_2d)),
        call_ensures(model::checked_model, (graph, input, output, force_conv_2d), checked) ==> outcome::view_of(checked) == model::compiled(*graph, input, output, force_conv_2d),
        model::compiled(*graph, input, output, force_conv_2d) is Some ==> call_requires(model::model, (graph, input, output, force_conv_2d)),
        call_ensures(model::model, (graph, input, output, force_conv_2d), plain) ==> outcome::view_of(Some(plain)) == model::compiled(*graph, input, output, force_conv_2d),
{
}

} // verus!
