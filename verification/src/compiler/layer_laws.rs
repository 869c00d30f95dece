//! What the layers that the compiler builds are made of, element by element.
use crate::compiler::conv_1d;
use crate::compiler::conv_1d::{Conv1DError, TokenConv1D};
use crate::compiler::fully_connected;
use crate::compiler::fully_connected::{Arithmetic, TokenFullyConnected};
use crate::compiler::schema::Conv2DOptions;
use crate::compiler::tensor;
use crate::compiler::tensor::{TokenTensor2D, TokenTensor4D};
use crate::ops;
use crate::ops::accumulate;
use crate::ops::accumulate_laws;
use crate::ops::conv_1d_formula;
use crate::quantize::Quantized;
use crate::sums;
use crate::tensor::TensorViewPadding;
use vstd::prelude::*;

verus! {

// Biases

/// The bias of an operator is its third input, if it has one and it is not
/// marked as left out.
pub proof fn law_bias_is_the_third_input(inputs: Seq<i32>)
    ensures
        match tensor::bias_tensor(inputs) {
            Some(index) => inputs.len() >= 3 && index == inputs[2],
            None => inputs.len() < 3 || inputs[2] < 0,
        },
{
}

/// A restored bias is a single column of zeros, one per output, with a scale
/// of one and a zero point of zero.
pub proof fn law_restored_bias_is_zero<S>(bias: TokenTensor2D<i32, S>, n: usize, one: S)
    requires
        tensor::is_zero_bias(bias, n as nat, one),
    ensures
        bias.buffer@.len() == 1,
        bias.buffer@[0]@.len() == n,
        forall|j: int| 0 <= j < n ==> #[trigger] bias.buffer@[0]@[j] == 0,
        bias.shape@.len() == 2,
        bias.shape@[0] == n,
        bias.shape@[1] == 1,
        bias.scale@.len() == 1,
        bias.scale@[0] == one,
        bias.zero_point@.len() == 1,
        bias.zero_point@[0] == 0,
{
}

/// The parameter of a channel: its own one where there is one, else the
/// first.
pub open spec fn own<A>(values: Seq<A>, channel: int) -> A {
    if channel < values.len() {
        values[channel]
    } else {
        values[0]
    }
}

// Convolutions along one axis

/// Whether `windows` is the number of windows a stride apart: with `Valid`
/// padding as many as fit inside the input, at least one; with `Same` as many
/// as start inside it.
pub open spec fn is_window_count(
    padding: TensorViewPadding,
    windows: int,
    stride: int,
    kernel: int,
    timesteps: int,
) -> bool {
    &&& stride > 0
    &&& match padding {
        TensorViewPadding::Valid => {
            &&& windows >= 1
            &&& (windows - 1) * stride + kernel <= timesteps < windows * stride + kernel
        },
        TensorViewPadding::Same => {
            &&& windows >= 0
            &&& timesteps <= windows * stride
            &&& windows > 0 ==> (windows - 1) * stride < timesteps
        },
    }
}

/// Two numbers of windows of one geometry are the same.
proof fn lemma_window_count_is_unique(
    padding: TensorViewPadding,
    a: int,
    b: int,
    stride: int,
    kernel: int,
    timesteps: int,
)
    requires
        timesteps >= 0,
        is_window_count(padding, a, stride, kernel, timesteps),
        is_window_count(padding, b, stride, kernel, timesteps),
    ensures
        a == b,
{
    if a < b {
        assert(a * stride <= (b - 1) * stride) by (nonlinear_arith)
            requires
                a <= b - 1,
                stride > 0,
        ;
    } else if b < a {
        assert(b * stride <= (a - 1) * stride) by (nonlinear_arith)
            requires
                b <= a - 1,
                stride > 0,
        ;
    }
}

/// The shapes of a convolution along one axis are accepted exactly where the
/// filters are of rank 4 and one row high, the input and the output are of
/// rank 4 with a single row, the channels agree, the filters do not stride
/// over rows, and the output holds one timestep per window and one channel
/// per filter. The stride is the one of the operator.
pub proof fn law_accepted_shapes(
    index: usize,
    filters: Seq<usize>,
    input: Seq<usize>,
    output: Seq<usize>,
    options: Conv2DOptions,
)
    ensures
        ({
            let planned = conv_1d::planned_stride(index, filters, input, output, options);
            let stride = options.stride_w as usize;
            &&& (planned matches Some(Ok(_))) <==> {
                &&& filters.len() == 4 && input.len() == 4 && output.len() == 4
                &&& filters[1] == 1 && input[1] == 1 && output[1] == 1
                &&& filters[3] == input[3]
                &&& output[3] == filters[0]
                &&& options.stride_h == 1
                &&& is_window_count(
                    options.padding,
                    output[2] as int,
                    stride as int,
                    filters[2] as int,
                    input[2] as int,
                )
            }
            &&& planned matches Some(Ok(found)) ==> found == stride
        }),
{
    let stride = options.stride_w as usize;
    ops::conv_1d_formula::law_windows_are_counted(
        input[2],
        filters[2],
        stride,
        options.padding,
    );
    let count = ops::conv_1d::window_count(
        input[2] as int,
        filters[2] as int,
        stride as int,
        options.padding,
    );
    if is_window_count(
        options.padding,
        output[2] as int,
        stride as int,
        filters[2] as int,
        input[2] as int,
    ) {
        if options.padding is Valid {
            assert((output[2] - 1) * stride >= 0) by (nonlinear_arith)
                requires
                    output[2] >= 1,
                    stride > 0,
            ;
        }
        lemma_window_count_is_unique(
            options.padding,
            output[2] as int,
            count->Some_0,
            stride as int,
            filters[2] as int,
            input[2] as int,
        );
    }
}

/// Each refusal of a convolution along one axis says something true of its
/// shapes, and what is checked before it holds.
pub proof fn law_refused_shapes(
    index: usize,
    filters: Seq<usize>,
    input: Seq<usize>,
    output: Seq<usize>,
    options: Conv2DOptions,
)
    ensures
        ({
            let stride = options.stride_w as usize;
            let filters_fit = filters.len() == 4 && filters[1] == 1;
            let input_fits = filters_fit && input.len() == 4 && input[1] == 1;
            let channels_fit = input_fits && filters[3] == input[3];
            let strides_fit = channels_fit && options.stride_h == 1;
            match conv_1d::planned_stride(index, filters, input, output, options) {
                None => strides_fit && (stride == 0 || (stride == 1 && options.padding is Valid
                    && filters[2] == 0 && input[2] == usize::MAX)),
                Some(Ok(_)) => true,
                Some(Err(Conv1DError::FiltersRank { index: at, shape })) => at == index && shape
                    == filters && filters.len() != 4,
                Some(Err(Conv1DError::FiltersHeight { index: at, height })) => at == index
                    && filters.len() == 4 && height == filters[1] && height != 1,
                Some(Err(Conv1DError::Input { index: at, shape })) => at == index && filters_fit
                    && shape == input && !(input.len() == 4 && input[1] == 1),
                Some(Err(Conv1DError::Channels { index: at, filters: expected, input: found })) =>
                at == index && input_fits && expected == filters[3] && found == input[3]
                    && expected != found,
                Some(Err(Conv1DError::StrideHeight { index: at, stride_h })) => at == index
                    && channels_fit && stride_h == options.stride_h && stride_h != 1,
                Some(Err(Conv1DError::EmptyOutput { index: at, timesteps, kernel })) => at == index
                    && strides_fit && options.padding is Valid && timesteps == input[2] && kernel
                    == filters[2] && timesteps < kernel,
                Some(Err(Conv1DError::Output { index: at, shape })) => at == index && strides_fit
                    && !(options.padding is Valid && input[2] < filters[2]) && shape == output && !(
                output.len() == 4 && output[1] == 1),
                Some(
                    Err(
                        Conv1DError::Geometry {
                            index: at,
                            shape,
                            timesteps,
                            kernel,
                            stride: step,
                            same,
                            expected,
                            filters: count,
                        },
                    ),
                ) => {
                    &&& at == index && strides_fit
                    &&& shape == output && output.len() == 4 && output[1] == 1
                    &&& timesteps == input[2] && kernel == filters[2] && step == stride
                    &&& same == (options.padding is Same)
                    &&& count == filters[0]
                    &&& is_window_count(
                        options.padding,
                        expected as int,
                        stride as int,
                        kernel as int,
                        timesteps as int,
                    )
                    &&& output[2] != expected || output[3] != count
                },
            }
        }),
{
    let stride = options.stride_w as usize;
    ops::conv_1d_formula::law_windows_are_counted(
        input[2],
        filters[2],
        stride,
        options.padding,
    );
}

/// Whether each bias of some filters is what `rescale` makes of the bias in
/// the file (or of zero at a scale of one, where it is dropped), the scale of
/// the input and the scale of its own filter.
pub open spec fn biases_are_rescaled<T, S, F: Fn(i32, S, S, S) -> i32>(
    converted: TokenTensor2D<i32, S>,
    biases: Option<TokenTensor2D<i32, S>>,
    input: TokenTensor4D<T, S>,
    filters: TokenTensor4D<T, S>,
    one: S,
    rescale: F,
) -> bool {
    &&& converted.buffer@.len() == 1
    &&& converted.buffer@[0]@.len() == filters.shape@[0]
    &&& forall|f: int|
        0 <= f < filters.shape@[0] ==> call_ensures(
            rescale,
            (
                match biases {
                    Some(given) => given.buffer@[0]@[f],
                    None => 0,
                },
                match biases {
                    Some(given) => own(given.scale@, f),
                    None => one,
                },
                input.scale@[0],
                own(filters.scale@, f),
            ),
            #[trigger] converted.buffer@[0]@[f],
        )
    &&& converted.shape@.len() == 2
    &&& converted.shape@[0] == filters.shape@[0]
    &&& converted.shape@[1] == 1
    &&& converted.scale@.len() == converted.zero_point@.len()
    &&& converted.scale@.len() >= 1
    &&& converted.scale@.len() >= filters.scale@.len()
    &&& converted.scale@.len() == 1 || converted.scale@.len() == filters.scale@.len()
    &&& forall|q: int| 0 <= q < converted.scale@.len() ==> #[trigger] converted.scale@[q] == one
    &&& forall|q: int|
        0 <= q < converted.zero_point@.len() ==> #[trigger] converted.zero_point@[q] == 0
}

/// Converted biases are the rescaled ones.
pub proof fn law_converted_biases<T, S, F: Fn(i32, S, S, S) -> i32>(
    converted: TokenTensor2D<i32, S>,
    biases: TokenTensor2D<i32, S>,
    input: TokenTensor4D<T, S>,
    filters: TokenTensor4D<T, S>,
    one: S,
    rescale: F,
)
    requires
        conv_1d::is_in_accumulator_units(converted, biases, input, filters, one, rescale),
    ensures
        biases_are_rescaled(converted, Some(biases), input, filters, one, rescale),
{
}

/// The biases can be converted exactly where no filter needs one, or every
/// filter has one and the scales of the biases, the input and the filters are
/// there. A dropped bias needs no bias and no scale of one.
pub proof fn law_biases_can_be_converted<T, S>(
    biases: Option<TokenTensor2D<i32, S>>,
    input: TokenTensor4D<T, S>,
    filters: TokenTensor4D<T, S>,
)
    ensures
        conv_1d::bias_defined(biases, input, filters) <==> {
            ||| filters.shape@[0] == 0
            ||| {
                &&& filters.scale@.len() > 0
                &&& input.scale@.len() > 0
                &&& (match biases {
                    Some(given) => given.scale@.len() > 0 && given.buffer@.len() > 0
                        && given.buffer@[0]@.len() >= filters.shape@[0],
                    None => true,
                })
            }
        },
        biases matches Some(given) ==> conv_1d::accumulator_units_defined(given, input, filters)
            == conv_1d::bias_defined(biases, input, filters),
{
}

/// A layer that was built carries its tensors and the options of its
/// operator: the padding, the stride over time, the activation function and
/// the position, with the biases rescaled. The kernel is defined on its
/// geometry, where the windows can be held.
pub proof fn law_built_conv_1d<T, S, F: Fn(i32, S, S, S) -> i32>(
    layer: TokenConv1D<T, S>,
    input: TokenTensor4D<T, S>,
    filters: TokenTensor4D<T, S>,
    biases: Option<TokenTensor2D<i32, S>>,
    output: TokenTensor4D<T, S>,
    options: Conv2DOptions,
    index: usize,
    stride: usize,
    one: S,
    rescale: F,
)
    requires
        conv_1d::planned_stride(index, filters.shape@, input.shape@, output.shape@, options)
            == Some(Ok::<usize, Conv1DError<Seq<usize>>>(stride)),
        conv_1d::is_layer(
            layer,
            input,
            filters,
            biases,
            output,
            options,
            index,
            stride,
            one,
            rescale,
        ),
    ensures
        layer.filters == filters,
        layer.output == output,
        layer.fused_activation == options.fused_activation,
        layer.view_padding == options.padding,
        layer.stride == options.stride_w as usize,
        layer.index == index,
        biases_are_rescaled(layer.biases, biases, input, filters, one, rescale),
        is_window_count(
            layer.view_padding,
            layer.output.shape@[2] as int,
            layer.stride as int,
            layer.filters.shape@[2] as int,
            input.shape@[2] as int,
        ),
        ({
            let kernel = layer.filters.shape@[2] as int;
            let windows = layer.output.shape@[2] as int;
            layer.view_padding is Valid || (windows >= 1 && (windows - 1) * layer.stride + kernel
                <= isize::MAX) ==> {
                let kernel_options = ops::conv_1d::Conv1DOptions {
                    fused_activation: layer.fused_activation,
                    padding: layer.view_padding,
                    stride: layer.stride,
                };
                &&& conv_1d_formula::is_geometry(
                    kernel_options,
                    windows,
                    kernel,
                    input.shape@[2] as int,
                )
                &&& ops::conv_1d::geometry_defined(
                    kernel_options,
                    windows,
                    kernel,
                    input.shape@[2] as int,
                )
            }
        }),
{
    law_accepted_shapes(index, filters.shape@, input.shape@, output.shape@, options);
    let kernel_options = ops::conv_1d::Conv1DOptions {
        fused_activation: layer.fused_activation,
        padding: layer.view_padding,
        stride: layer.stride,
    };
    conv_1d_formula::law_geometry(
        kernel_options,
        layer.output.shape@[2] as int,
        layer.filters.shape@[2] as int,
        input.shape@[2] as int,
    );
    if biases is None {
        let zeros = choose|zeros: TokenTensor2D<i32, S>|
            #[trigger] tensor::is_zero_bias(zeros, filters.shape@[0] as nat, one)
                && conv_1d::is_in_accumulator_units(
                layer.biases,
                zeros,
                input,
                filters,
                one,
                rescale,
            );
        law_restored_bias_is_zero(zeros, filters.shape@[0], one);
        assert forall|f: int| 0 <= f < filters.shape@[0] implies call_ensures(
            rescale,
            (0i32, one, input.scale@[0], own(filters.scale@, f)),
            #[trigger] layer.biases.buffer@[0]@[f],
        ) by {
            assert(zeros.buffer@[0]@[f] == 0);
            assert(own(zeros.scale@, f) == one);
        }
    }
}

// Fully connected layers

/// The sum of the first `n` weights of output `j`.
pub open spec fn weight_sum<T: Quantized, S>(weights: TokenTensor2D<T, S>, j: int, n: nat) -> int {
    sums::summed(|k: int| weights.buffer@[j]@[k].value(), n)
}

/// The sum of the weights of output `j`, less its zero point once per input.
pub open spec fn centered_weights<T: Quantized, S>(weights: TokenTensor2D<T, S>, j: int) -> int {
    weight_sum(weights, j, weights.buffer@[j]@.len()) - (weights.shape@[0] as i32) * own(
        weights.zero_point@,
        j,
    ).value()
}

/// The sum of a column of weights, as the compiler adds it.
proof fn lemma_weight_sum<T: Quantized, S>(weights: TokenTensor2D<T, S>, j: int, n: nat)
    requires
        n <= weights.buffer@[j]@.len(),
    ensures
        accumulate::total(fully_connected::values(weights.buffer@[j]@), n) == weight_sum(
            weights,
            j,
            n,
        ),
{
    let column = fully_connected::values(weights.buffer@[j]@);
    accumulate_laws::law_total_is_the_sum(column, n);
    let a = |k: int| column[k];
    let b = |k: int| weights.buffer@[j]@[k].value();
    assert forall|k: int| 0 <= k < n implies #[trigger] a(k) == b(k) by {}
    sums::lemma_same_sum(a, b, n);
}

/// The zero-point correction of output `j` is the zero point of the input
/// times what the weights of the output add up to, less the zero point of
/// that output once per input.
pub proof fn law_correction_centers_the_weights<T: Quantized, S>(
    input: TokenTensor2D<T, S>,
    weights: TokenTensor2D<T, S>,
    j: int,
)
    ensures
        fully_connected::correction(input, weights, j) == input.zero_point@[0].value()
            * centered_weights(weights, j),
{
    lemma_weight_sum(weights, j, weights.buffer@[j]@.len());
}

/// The correction of output `j` can be computed exactly where its weights
/// and the zero points are there, and every sum, every product and every
/// difference can be held.
pub proof fn law_correction_can_be_computed<T: Quantized, S>(
    input: TokenTensor2D<T, S>,
    weights: TokenTensor2D<T, S>,
    j: int,
)
    requires
        0 <= j,
    ensures
        fully_connected::correction_defined(input, weights, j) <==> {
            &&& weights.zero_point@.len() > 0
            &&& input.zero_point@.len() > 0
            &&& j < weights.buffer@.len()
            &&& forall|n: nat|
                n <= weights.buffer@[j]@.len() ==> i32::MIN <= #[trigger] weight_sum(weights, j, n)
                    <= i32::MAX
            &&& i32::MIN <= (weights.shape@[0] as i32) * own(weights.zero_point@, j).value()
                <= i32::MAX
            &&& i32::MIN <= centered_weights(weights, j) <= i32::MAX
            &&& i32::MIN <= input.zero_point@[0].value() * centered_weights(weights, j) <= i32::MAX
        },
{
    let len = weights.buffer@[j]@.len();
    let column = fully_connected::values(weights.buffer@[j]@);
    lemma_weight_sum(weights, j, len);
    if accumulate::total_fits(column, len) {
        assert forall|n: nat| n <= len implies i32::MIN <= #[trigger] weight_sum(weights, j, n)
            <= i32::MAX by {
            lemma_weight_sum(weights, j, n);
            assert(accumulate::fits(accumulate::total(column, n)));
        }
    }
    if forall|n: nat|
        n <= len ==> i32::MIN <= #[trigger] weight_sum(weights, j, n) <= i32::MAX {
        assert forall|n: nat| n <= len implies accumulate::fits(
            #[trigger] accumulate::total(column, n),
        ) by {
            lemma_weight_sum(weights, j, n);
            assert(i32::MIN <= weight_sum(weights, j, n) <= i32::MAX);
        }
    }
}

/// The bias of output `j` can be centered exactly where it is there with a
/// zero point and the difference can be held; it is the bias less its own
/// zero point.
pub proof fn law_centered_bias<S>(biases: TokenTensor2D<i32, S>, j: int)
    requires
        0 <= j,
    ensures
        fully_connected::centered_bias(biases, j) == biases.buffer@[0]@[j] - own(
            biases.zero_point@,
            j,
        ),
        fully_connected::bias_defined(biases, j) <==> {
            &&& biases.zero_point@.len() > 0
            &&& biases.buffer@.len() > 0
            &&& j < biases.buffer@[0]@.len()
            &&& i32::MIN <= biases.buffer@[0]@[j] - own(biases.zero_point@, j) <= i32::MAX
        },
{
}

/// The constants of a layer, output by output: each term is made of the bias
/// less its zero point, its own scale and the scale of the output; each
/// multiplier of the scales of the input, of the output's own weights and of
/// the output; each correction of the zero point of the input and the centered
/// weights of that output.
pub open spec fn constants_by_output<
    T: Quantized,
    S,
    B: Fn(i32, S, S) -> S,
    M: Fn(S, S, S) -> S,
>(
    constants: (Vec<S>, Vec<S>, Vec<i32>),
    input: TokenTensor2D<T, S>,
    weights: TokenTensor2D<T, S>,
    biases: Option<TokenTensor2D<i32, S>>,
    output: TokenTensor2D<T, S>,
    one: S,
    arithmetic: Arithmetic<B, M>,
) -> bool {
    &&& constants.0@.len() == weights.shape@[1]
    &&& constants.1@.len() == weights.shape@[1]
    &&& constants.2@.len() == weights.shape@[1]
    &&& forall|j: int|
        0 <= j < weights.shape@[1] ==> call_ensures(
            arithmetic.bias_term,
            (
                match biases {
                    Some(given) => (given.buffer@[0]@[j] - own(given.zero_point@, j)) as i32,
                    None => 0,
                },
                match biases {
                    Some(given) => own(given.scale@, j),
                    None => one,
                },
                output.scale@[0],
            ),
            #[trigger] constants.0@[j],
        )
    &&& forall|j: int|
        0 <= j < weights.shape@[1] ==> call_ensures(
            arithmetic.multiplier,
            (
                input.scale@[0],
                if j < weights.scale@.len() {
                    weights.scale@[j]
                } else {
                    weights.scale@[0]
                },
                output.scale@[0],
            ),
            #[trigger] constants.1@[j],
        )
    &&& forall|j: int|
        0 <= j < weights.shape@[1] ==> #[trigger] constants.2@[j] == input.zero_point@[0].value()
            * centered_weights(weights, j)
}

/// Computed constants are those of each output.
pub proof fn law_constants_by_output<
    T: Quantized,
    S,
    B: Fn(i32, S, S) -> S,
    M: Fn(S, S, S) -> S,
>(
    constants: (Vec<S>, Vec<S>, Vec<i32>),
    input: TokenTensor2D<T, S>,
    weights: TokenTensor2D<T, S>,
    biases: TokenTensor2D<i32, S>,
    output: TokenTensor2D<T, S>,
    one: S,
    arithmetic: Arithmetic<B, M>,
)
    requires
        fully_connected::are_constants(constants, input, weights, biases, output, arithmetic),
    ensures
        constants_by_output(constants, input, weights, Some(biases), output, one, arithmetic),
{
    assert forall|j: int| 0 <= j < weights.shape@[1] implies #[trigger] constants.2@[j]
        == input.zero_point@[0].value() * centered_weights(weights, j) by {
        law_correction_centers_the_weights(input, weights, j);
    }
}

/// Whether the bias and the correction of output `j` can be computed.
pub open spec fn constant_exists<T: Quantized, S>(
    input: TokenTensor2D<T, S>,
    weights: TokenTensor2D<T, S>,
    biases: TokenTensor2D<i32, S>,
    j: int,
) -> bool {
    &&& fully_connected::bias_defined(biases, j)
    &&& fully_connected::correction_defined(input, weights, j)
}

/// Whether the weights are a matrix, the scales are there where there is an
/// output, and the bias and the correction of every output can be computed.
pub open spec fn constants_exist<T: Quantized, S>(
    input: TokenTensor2D<T, S>,
    weights: TokenTensor2D<T, S>,
    biases: TokenTensor2D<i32, S>,
    output: TokenTensor2D<T, S>,
) -> bool {
    &&& weights.shape@.len() >= 2
    &&& (weights.shape@[1] == 0 || (input.scale@.len() > 0 && weights.scale@.len() > 0
        && output.scale@.len() > 0 && biases.scale@.len() > 0))
    &&& forall|j: int|
        0 <= j < weights.shape@[1] ==> #[trigger] constant_exists(input, weights, biases, j)
}

/// The constants of a layer with a bias can be computed exactly where the
/// weights are a matrix, the scales are there, and the bias and the correction
/// of every output can be computed.
pub proof fn law_constants_can_be_computed<T: Quantized, S>(
    input: TokenTensor2D<T, S>,
    weights: TokenTensor2D<T, S>,
    biases: TokenTensor2D<i32, S>,
    output: TokenTensor2D<T, S>,
)
    ensures
        fully_connected::preprocess_defined(input, weights, biases, output)
            == constants_exist(input, weights, biases, output),
        fully_connected::layer_defined(input, weights, Some(biases), output)
            == fully_connected::preprocess_defined(input, weights, biases, output),
{
    if fully_connected::preprocess_defined(input, weights, biases, output) {
        assert forall|j: int| 0 <= j < weights.shape@[1] implies #[trigger] constant_exists(
            input,
            weights,
            biases,
            j,
        ) by {
            assert(fully_connected::output_defined(input, weights, biases, j));
        }
        assert(constants_exist(input, weights, biases, output));
    }
    if constants_exist(input, weights, biases, output) {
        assert forall|j: int|
            0 <= j < weights.shape@[1] implies #[trigger] fully_connected::output_defined(
            input,
            weights,
            biases,
            j,
        ) by {
            assert(constant_exists(input, weights, biases, j));
        }
        assert(fully_connected::preprocess_defined(input, weights, biases, output));
    }
}

/// The constants of a layer whose bias is dropped can be computed exactly
/// where the weights are a matrix, the scales are there, and the correction of
/// every output can be computed.
pub proof fn law_constants_without_bias_can_be_computed<T: Quantized, S>(
    input: TokenTensor2D<T, S>,
    weights: TokenTensor2D<T, S>,
    output: TokenTensor2D<T, S>,
)
    ensures
        fully_connected::layer_defined(input, weights, None, output) <==> {
            &&& weights.shape@.len() >= 2
            &&& weights.shape@[1] == 0 || (input.scale@.len() > 0 && weights.scale@.len() > 0
                && output.scale@.len() > 0)
            &&& forall|j: int|
                0 <= j < weights.shape@[1] ==> #[trigger] fully_connected::correction_defined(
                    input,
                    weights,
                    j,
                )
        },
{
}

/// A layer that was built carries its tensors, its activation function, its
/// position, and the constants of each of its outputs.
pub proof fn law_built_fully_connected<
    T: Quantized,
    S,
    B: Fn(i32, S, S) -> S,
    M: Fn(S, S, S) -> S,
>(
    layer: TokenFullyConnected<T, S>,
    input: TokenTensor2D<T, S>,
    weights: TokenTensor2D<T, S>,
    biases: Option<TokenTensor2D<i32, S>>,
    output: TokenTensor2D<T, S>,
    fused_activation: crate::activation::FusedActivation,
    index: usize,
    one: S,
    arithmetic: Arithmetic<B, M>,
)
    requires
        fully_connected::is_layer(
            layer,
            input,
            weights,
            biases,
            output,
            fused_activation,
            index,
            one,
            arithmetic,
        ),
    ensures
        layer.weights == weights,
        layer.output == output,
        layer.fused_activation == fused_activation,
        layer.index == index,
        constants_by_output(layer.constants, input, weights, biases, output, one, arithmetic),
{
    match biases {
        Some(given) => {
            law_constants_by_output(
                layer.constants,
                input,
                weights,
                given,
                output,
                one,
                arithmetic,
            );
        },
        None => {
            let zeros = choose|zeros: TokenTensor2D<i32, S>|
                #[trigger] tensor::is_zero_bias(zeros, weights.shape@[1] as nat, one)
                    && fully_connected::are_constants(
                    layer.constants,
                    input,
                    weights,
                    zeros,
                    output,
                    arithmetic,
                );
            law_restored_bias_is_zero(zeros, weights.shape@[1], one);
            law_constants_by_output(
                layer.constants,
                input,
                weights,
                zeros,
                output,
                one,
                arithmetic,
            );
            assert forall|j: int| 0 <= j < weights.shape@[1] implies call_ensures(
                arithmetic.bias_term,
                (0i32, one, output.scale@[0]),
                #[trigger] layer.constants.0@[j],
            ) by {
                assert(zeros.buffer@[0]@[j] == 0);
                assert(own(zeros.zero_point@, j) == 0);
                assert(own(zeros.scale@, j) == one);
            }
        },
    }
}

} // verus!
