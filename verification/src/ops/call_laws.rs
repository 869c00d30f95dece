//! What a call of each function of the kernels gives: the laws of the other
//! files speak of spec functions, and these join them to the calls.
use crate::activation;
use crate::activation::FusedActivation;
use crate::ops::accumulate;
use crate::ops::conv_1d;
use crate::ops::conv_1d::{Arithmetic, Conv1DOptions};
use crate::ops::conv_1d_formula;
use crate::ops::fully_connected;
use crate::ops::fully_connected::FullyConnectedOptions;
use crate::ops::fully_connected_formula;
use crate::quantize;
use crate::quantize::Quantized;
use crate::tensor::{Buffer2D, Tensor2D, Tensor4D, TensorViewPadding};
use vstd::prelude::*;

verus! {

/// The value of an element, read as a number of the accumulator.
pub proof fn law_elements<T: Quantized>(element: T, value: i32)
    ensures
        call_requires(T::to_i32, (element,)),
        call_ensures(T::to_i32, (element,), value) ==> value == element.value(),
{
}

/// The parameter of a channel is picked as its law says.
pub proof fn law_channel_parameters<A: Copy, const QUANTS: usize>(
    values: &[A; QUANTS],
    channel: usize,
    value: A,
)
    ensures
        QUANTS > 0 ==> call_requires(
            quantize::channel_parameter::<A, QUANTS>,
            (values, channel),
        ),
        call_ensures(quantize::channel_parameter::<A, QUANTS>, (values, channel), value) ==> value
            == quantize::per_channel(values@, channel as int),
{
}

/// The activation functions give what their laws say.
pub proof fn law_activations<T: Quantized, S, X: Fn(S, T) -> T>(
    input: T,
    six: T,
    zero_point: T,
    output: T,
    function: FusedActivation,
    quantize_six: &X,
    scale: S,
)
    ensures
        call_requires(activation::relu::<T>, (input, zero_point)),
        call_ensures(activation::relu::<T>, (input, zero_point), output) ==> {
            &&& output.value() >= zero_point.value() && output.value() >= input.value()
            &&& output == input || output == zero_point
        },
        call_requires(activation::relu6::<T>, (input, six, zero_point)),
        call_ensures(activation::relu6::<T>, (input, six, zero_point), output) ==> {
            &&& output.value() <= six.value()
            &&& output == input || output == zero_point || output == six
            &&& input.value() <= output.value() || output == six
            &&& zero_point.value() <= output.value() || output == six
            &&& output.value() <= input.value() || output.value() <= zero_point.value()
        },
        (function is Relu6 ==> call_requires(*quantize_six, (scale, zero_point)))
            ==> call_requires(
            activation::activate::<T, S, X>,
            (function, quantize_six, scale, zero_point, input),
        ),
        call_ensures(
            activation::activate::<T, S, X>,
            (function, quantize_six, scale, zero_point, input),
            output,
        ) ==> activation::activated(function, *quantize_six, scale, zero_point, input, output),
{
}

/// A tensor holds the parts that it is made of.
pub proof fn law_tensors<
    T,
    S,
    const BATCHES: usize,
    const ROWS: usize,
    const COLS: usize,
    const CHANS: usize,
    const QUANTS: usize,
>(
    matrix: [[T; COLS]; ROWS],
    batch: [[[[T; CHANS]; COLS]; ROWS]; BATCHES],
    scale: [S; QUANTS],
    zero_point: [T; QUANTS],
    two: Tensor2D<T, S, ROWS, COLS, QUANTS>,
    four: Tensor4D<T, S, BATCHES, ROWS, COLS, CHANS, QUANTS>,
)
    ensures
        call_ensures(
            Tensor2D::<T, S, ROWS, COLS, QUANTS>::new,
            (matrix, scale, zero_point),
            two,
        ) ==> two.buffer == matrix && two.scale == scale && two.zero_point == zero_point,
        call_ensures(
            Tensor4D::<T, S, BATCHES, ROWS, COLS, CHANS, QUANTS>::new,
            (batch, scale, zero_point),
            four,
        ) ==> four.buffer == batch && four.scale == scale && four.zero_point == zero_point,
{
}

/// Two rows are accumulated as their laws say.
pub proof fn law_accumulated_rows<T: Quantized, const CHANS: usize>(
    start: i32,
    samples: &[T; CHANS],
    samples_zero_point: T,
    weights: &[T; CHANS],
    weights_zero_point: T,
    sum: Option<i32>,
)
    ensures
        ({
            let args = (start, samples, samples_zero_point, weights, weights_zero_point);
            let a = accumulate::centered(samples@, samples_zero_point.value());
            let b = accumulate::centered(weights@, weights_zero_point.value());
            &&& call_requires(accumulate::accumulate::<T, CHANS>, args)
            &&& call_ensures(accumulate::accumulate::<T, CHANS>, args, sum) ==> match sum {
                None => !accumulate::dot_fits(start as int, a, b, CHANS as nat),
                Some(found) => found == start + accumulate::dot(a, b, CHANS as nat),
            }
        }),
{
}

/// The windows of a geometry are counted, and its padding is computed, as
/// their laws say.
pub proof fn law_geometries(
    timesteps: usize,
    kernel: usize,
    stride: usize,
    padding: TensorViewPadding,
    count: Option<usize>,
    windows: usize,
    pad: usize,
)
    ensures
        conv_1d::window_count_defined(timesteps as int, kernel as int, stride as int, padding)
            ==> call_requires(conv_1d::output_len, (timesteps, kernel, stride, padding)),
        call_ensures(conv_1d::output_len, (timesteps, kernel, stride, padding), count) ==> match (
            count,
            conv_1d::window_count(timesteps as int, kernel as int, stride as int, padding),
        ) {
            (Some(n), Some(expected)) => n == expected,
            (None, None) => true,
            _ => false,
        },
        windows >= 1 && (windows - 1) * stride + kernel <= usize::MAX ==> call_requires(
            conv_1d::same_pad_left,
            (windows, stride, kernel, timesteps),
        ),
        call_ensures(conv_1d::same_pad_left, (windows, stride, kernel, timesteps), pad) ==> {
            let beyond = (windows - 1) * stride + kernel - timesteps;
            &&& beyond <= 0 ==> pad == 0
            &&& beyond > 0 ==> 2 * pad <= beyond < 2 * pad + 2
        },
{
}

/// The raw sums of a convolution are the sums over taps and channels with the
/// bias of their filter, and are computed exactly where they can be held.
pub proof fn law_convolution_sums<
    T: Quantized,
    S,
    const TIMESTEPS: usize,
    const CHANS: usize,
    const KERNEL: usize,
    const FILTERS: usize,
    const FILTERS_QUANTS: usize,
    const OUTPUT_TIMESTEPS: usize,
>(
    input: &Tensor4D<T, S, 1, 1, TIMESTEPS, CHANS, 1>,
    filters: &Tensor4D<T, S, FILTERS, 1, KERNEL, CHANS, FILTERS_QUANTS>,
    biases: &Tensor2D<i32, S, FILTERS, 1, FILTERS_QUANTS>,
    options: Conv1DOptions,
    sums: Option<[[i32; FILTERS]; OUTPUT_TIMESTEPS]>,
    t: int,
    f: int,
)
    requires
        0 <= t < OUTPUT_TIMESTEPS,
        0 <= f < FILTERS,
        call_ensures(
            conv_1d::checked_accumulators::<
                T,
                S,
                TIMESTEPS,
                CHANS,
                KERNEL,
                FILTERS,
                FILTERS_QUANTS,
                OUTPUT_TIMESTEPS,
            >,
            (input, filters, biases, options),
            sums,
        ),
    ensures
        sums is Some <==> conv_1d::conv_1d_defined(
            *input,
            *filters,
            *biases,
            options,
            OUTPUT_TIMESTEPS as int,
        ),
        sums matches Some(found) ==> found[t][f] == conv_1d_formula::taps_sum(
            *input,
            *filters,
            options,
            OUTPUT_TIMESTEPS as int,
            t,
            f,
            KERNEL as nat,
        ) + biases.buffer[f][0],
{
    conv_1d_formula::law_accumulator_is_the_sum_over_taps_and_channels(
        *input,
        *filters,
        options,
        OUTPUT_TIMESTEPS as int,
        t,
        f,
    );
}

/// A convolution gives a result exactly where it is defined, and that is the
/// one of its formula.
pub proof fn law_convolutions<
    T: Quantized,
    S: Copy,
    M: Copy,
    P: Fn(S, S, S) -> M,
    R: Fn(i32, M, T) -> T,
    X: Fn(S, T) -> T,
    const TIMESTEPS: usize,
    const CHANS: usize,
    const KERNEL: usize,
    const FILTERS: usize,
    const FILTERS_QUANTS: usize,
    const OUTPUT_TIMESTEPS: usize,
>(
    input: &Tensor4D<T, S, 1, 1, TIMESTEPS, CHANS, 1>,
    filters: &Tensor4D<T, S, FILTERS, 1, KERNEL, CHANS, FILTERS_QUANTS>,
    biases: &Tensor2D<i32, S, FILTERS, 1, FILTERS_QUANTS>,
    output_scale: [S; 1],
    output_zero_point: [T; 1],
    options: Conv1DOptions,
    arithmetic: &Arithmetic<P, R, X>,
    checked: Option<Tensor4D<T, S, 1, 1, OUTPUT_TIMESTEPS, FILTERS, 1>>,
)
    requires
        forall|f: int|
            0 <= f < FILTERS ==> call_requires(
                arithmetic.multiplier,
                (
                    input.scale[0],
                    #[trigger] quantize::per_channel(filters.scale@, f),
                    output_scale[0],
                ),
            ),
        forall|raw: i32, factor: M|
            call_requires(arithmetic.requantize, (raw, factor, output_zero_point[0])),
        options.fused_activation is Relu6 ==> call_requires(
            arithmetic.quantize_six,
            (output_scale[0], output_zero_point[0]),
        ),
    ensures
        call_requires(
            conv_1d::checked_conv_1d::<
            T,
            S,
            M,
            P,
            R,
            X,
            TIMESTEPS,
            CHANS,
            KERNEL,
            FILTERS,
            FILTERS_QUANTS,
            OUTPUT_TIMESTEPS,
            >,
            (input, filters, biases, output_scale, output_zero_point, options, arithmetic),
        ),
        call_ensures(
            conv_1d::checked_conv_1d::<
            T,
            S,
            M,
            P,
            R,
            X,
            TIMESTEPS,
            CHANS,
            KERNEL,
            FILTERS,
            FILTERS_QUANTS,
            OUTPUT_TIMESTEPS,
            >,
            (input, filters, biases, output_scale, output_zero_point, options, arithmetic),
            checked,
        ) ==> {
            &&& checked is Some <==> conv_1d::conv_1d_defined(
                *input,
                *filters,
                *biases,
                options,
                OUTPUT_TIMESTEPS as int,
            )
            &&& (checked matches Some(output) ==> conv_1d::is_convolution(
                output,
                *input,
                *filters,
                *biases,
                output_scale,
                output_zero_point,
                options,
                *arithmetic,
            ))
        },
{
}

/// A convolution that is defined can be called, and gives the result of its
/// formula.
pub proof fn law_defined_convolutions<
    T: Quantized,
    S: Copy,
    M: Copy,
    P: Fn(S, S, S) -> M,
    R: Fn(i32, M, T) -> T,
    X: Fn(S, T) -> T,
    const TIMESTEPS: usize,
    const CHANS: usize,
    const KERNEL: usize,
    const FILTERS: usize,
    const FILTERS_QUANTS: usize,
    const OUTPUT_TIMESTEPS: usize,
>(
    input: Tensor4D<T, S, 1, 1, TIMESTEPS, CHANS, 1>,
    filters: &Tensor4D<T, S, FILTERS, 1, KERNEL, CHANS, FILTERS_QUANTS>,
    biases: &Tensor2D<i32, S, FILTERS, 1, FILTERS_QUANTS>,
    output_scale: [S; 1],
    output_zero_point: [T; 1],
    options: Conv1DOptions,
    arithmetic: &Arithmetic<P, R, X>,
    output: Tensor4D<T, S, 1, 1, OUTPUT_TIMESTEPS, FILTERS, 1>,
)
    requires
        conv_1d::conv_1d_defined(input, *filters, *biases, options, OUTPUT_TIMESTEPS as int),
        forall|f: int|
            0 <= f < FILTERS ==> call_requires(
                arithmetic.multiplier,
                (
                    input.scale[0],
                    #[trigger] quantize::per_channel(filters.scale@, f),
                    output_scale[0],
                ),
            ),
        forall|raw: i32, factor: M|
            call_requires(arithmetic.requantize, (raw, factor, output_zero_point[0])),
        options.fused_activation is Relu6 ==> call_requires(
            arithmetic.quantize_six,
            (output_scale[0], output_zero_point[0]),
        ),
    ensures
        call_requires(
            conv_1d::conv_1d::<
            T,
            S,
            M,
            P,
            R,
            X,
            TIMESTEPS,
            CHANS,
            KERNEL,
            FILTERS,
            FILTERS_QUANTS,
            OUTPUT_TIMESTEPS,
            >,
            (input, filters, biases, output_scale, output_zero_point, options, arithmetic),
        ),
        call_ensures(
            conv_1d::conv_1d::<
            T,
            S,
            M,
            P,
            R,
            X,
            TIMESTEPS,
            CHANS,
            KERNEL,
            FILTERS,
            FILTERS_QUANTS,
            OUTPUT_TIMESTEPS,
            >,
            (input, filters, biases, output_scale, output_zero_point, options, arithmetic),
            output,
        ) ==> conv_1d::is_convolution(
            output,
            input,
            *filters,
            *biases,
            output_scale,
            output_zero_point,
            options,
            *arithmetic,
        ),
{
}

/// The accumulators of a fully connected operation are the corrected sums,
/// and are computed exactly where they can be held.
pub proof fn law_fully_connected_sums<
    T: Quantized,
    S,
    const INPUT_ROWS: usize,
    const INPUT_COLS: usize,
    const WEIGHTS_COLS: usize,
    const WEIGHTS_QUANTS: usize,
>(
    input: &Tensor2D<T, S, INPUT_ROWS, INPUT_COLS, 1>,
    weights: &Tensor2D<T, S, INPUT_COLS, WEIGHTS_COLS, WEIGHTS_QUANTS>,
    corrections: &Buffer2D<i32, 1, WEIGHTS_COLS>,
    sums: Option<[[i32; WEIGHTS_COLS]; INPUT_ROWS]>,
    i: int,
    j: int,
)
    requires
        0 <= i < INPUT_ROWS,
        0 <= j < WEIGHTS_COLS,
        call_ensures(
            fully_connected::checked_accumulators::<
                T,
                S,
                INPUT_ROWS,
                INPUT_COLS,
                WEIGHTS_COLS,
                WEIGHTS_QUANTS,
            >,
            (input, weights, corrections),
            sums,
        ),
    ensures
        sums is Some <==> fully_connected::fully_connected_defined(*input, *weights, *corrections),
        sums matches Some(found) ==> found[i][j] == fully_connected_formula::products(
            *input,
            *weights,
            i,
            j,
            INPUT_COLS as nat,
        ) - fully_connected_formula::weight_zero_point(*weights, j)
            * fully_connected_formula::row_sum(*input, i, INPUT_COLS as nat) - corrections[0][j],
{
    fully_connected_formula::law_accumulator_is_the_corrected_sum(
        *input,
        *weights,
        *corrections,
        i,
        j,
    );
}

/// A fully connected operation gives a result exactly where it is defined,
/// and that is the one of its formula.
pub proof fn law_fully_connected<
    T: Quantized,
    S: Copy,
    R: Fn(S, S, i32, T) -> T,
    X: Fn(S, T) -> T,
    const INPUT_ROWS: usize,
    const INPUT_COLS: usize,
    const WEIGHTS_COLS: usize,
    const WEIGHTS_QUANTS: usize,
>(
    input: &Tensor2D<T, S, INPUT_ROWS, INPUT_COLS, 1>,
    weights: &Tensor2D<T, S, INPUT_COLS, WEIGHTS_COLS, WEIGHTS_QUANTS>,
    output_scale: [S; 1],
    output_zero_point: [T; 1],
    options: FullyConnectedOptions,
    constants: &(
        Buffer2D<S, WEIGHTS_COLS, 1>,
        Buffer2D<S, WEIGHTS_COLS, 1>,
        Buffer2D<i32, 1, WEIGHTS_COLS>,
    ),
    requantize: &R,
    quantize_six: &X,
    checked: Option<Tensor2D<T, S, INPUT_ROWS, WEIGHTS_COLS, 1>>,
)
    requires
        forall|sum: i32, j: int|
            #![trigger call_requires(
                *requantize,
                (constants.0[j][0], constants.1[j][0], sum, output_zero_point[0]),
            )]
            0 <= j < WEIGHTS_COLS ==> call_requires(
                *requantize,
                (constants.0[j][0], constants.1[j][0], sum, output_zero_point[0]),
            ),
        options.fused_activation is Relu6 ==> call_requires(
            *quantize_six,
            (output_scale[0], output_zero_point[0]),
        ),
    ensures
        call_requires(
            fully_connected::checked_fully_connected::<
                T,
                S,
                R,
                X,
                INPUT_ROWS,
                INPUT_COLS,
                WEIGHTS_COLS,
                WEIGHTS_QUANTS,
            >,
            (
                input,
                weights,
                output_scale,
                output_zero_point,
                options,
                constants,
                requantize,
                quantize_six,
            ),
        ),
        call_ensures(
            fully_connected::checked_fully_connected::<
                T,
                S,
                R,
                X,
                INPUT_ROWS,
                INPUT_COLS,
                WEIGHTS_COLS,
                WEIGHTS_QUANTS,
            >,
            (
                input,
                weights,
                output_scale,
                output_zero_point,
                options,
                constants,
                requantize,
                quantize_six,
            ),
            checked,
        ) ==> {
            &&& checked is Some <==> fully_connected::fully_connected_defined(
                *input,
                *weights,
                constants.2,
            )
            &&& (checked matches Some(output) ==> fully_connected::is_layer_output(
                output,
                *input,
                *weights,
                output_scale,
                output_zero_point,
                options,
                *constants,
                *requantize,
                *quantize_six,
            ))
        },
{
}

/// A fully connected operation that is defined can be called, and gives the
/// result of its formula.
pub proof fn law_defined_fully_connected<
    T: Quantized,
    S: Copy,
    R: Fn(S, S, i32, T) -> T,
    X: Fn(S, T) -> T,
    const INPUT_ROWS: usize,
    const INPUT_COLS: usize,
    const WEIGHTS_COLS: usize,
    const WEIGHTS_QUANTS: usize,
>(
    input: Tensor2D<T, S, INPUT_ROWS, INPUT_COLS, 1>,
    weights: &Tensor2D<T, S, INPUT_COLS, WEIGHTS_COLS, WEIGHTS_QUANTS>,
    output_scale: [S; 1],
    output_zero_point: [T; 1],
    options: FullyConnectedOptions,
    constants: (
        Buffer2D<S, WEIGHTS_COLS, 1>,
        Buffer2D<S, WEIGHTS_COLS, 1>,
        Buffer2D<i32, 1, WEIGHTS_COLS>,
    ),
    requantize: &R,
    quantize_six: &X,
    output: Tensor2D<T, S, INPUT_ROWS, WEIGHTS_COLS, 1>,
)
    requires
        fully_connected::fully_connected_defined(input, *weights, constants.2),
        forall|sum: i32, j: int|
            #![trigger call_requires(
                *requantize,
                (constants.0[j][0], constants.1[j][0], sum, output_zero_point[0]),
            )]
            0 <= j < WEIGHTS_COLS ==> call_requires(
                *requantize,
                (constants.0[j][0], constants.1[j][0], sum, output_zero_point[0]),
            ),
        options.fused_activation is Relu6 ==> call_requires(
            *quantize_six,
            (output_scale[0], output_zero_point[0]),
        ),
    ensures
        call_requires(
            fully_connected::fully_connected::<
                T,
                S,
                R,
                X,
                INPUT_ROWS,
                INPUT_COLS,
                WEIGHTS_COLS,
                WEIGHTS_QUANTS,
            >,
            (
                input,
                weights,
                output_scale,
                output_zero_point,
                options,
                constants,
                requantize,
                quantize_six,
            ),
        ),
        call_ensures(
            fully_connected::fully_connected::<
                T,
                S,
                R,
                X,
                INPUT_ROWS,
                INPUT_COLS,
                WEIGHTS_COLS,
                WEIGHTS_QUANTS,
            >,
            (
                input,
                weights,
                output_scale,
                output_zero_point,
                options,
                constants,
                requantize,
                quantize_six,
            ),
            output,
        ) ==> fully_connected::is_layer_output(
            output,
            input,
            *weights,
            output_scale,
            output_zero_point,
            options,
            constants,
            *requantize,
            *quantize_six,
        ),
{
}

} // verus!
