//! What holds of every convolution along one axis.
use crate::activation;
use crate::activation::FusedActivation;
use crate::ops::accumulate;
use crate::ops::conv_1d;
use crate::ops::conv_1d::{Arithmetic, Conv1DOptions};
use crate::quantize;
use crate::quantize::Quantized;
use crate::tensor::{Tensor2D, Tensor4D, TensorViewPadding};
use vstd::prelude::*;

verus! {

/// Rows of channels that hold the zero point throughout.
pub open spec fn filled<T>(rows: nat, chans: nat, zero_point: T) -> Seq<Seq<T>> {
    Seq::new(rows, |t: int| Seq::new(chans, |c: int| zero_point))
}

/// The rows of channels of an input, one per timestep.
pub open spec fn rows<T, S, const TIMESTEPS: usize, const CHANS: usize>(
    input: Tensor4D<T, S, 1, 1, TIMESTEPS, CHANS, 1>,
) -> Seq<Seq<T>> {
    Seq::new(TIMESTEPS as nat, |t: int| input.buffer[0][0][t]@)
}

/// Rows of channels, each value less the zero point.
pub open spec fn centered_rows<T: Quantized>(rows: Seq<Seq<T>>, zero_point: T) -> Seq<Seq<int>> {
    Seq::new(rows.len(), |t: int| accumulate::centered(rows[t], zero_point.value()))
}

/// Padding with zeros on both sides changes no window.
proof fn lemma_padded_window(
    input: Seq<Seq<int>>,
    padded: Seq<Seq<int>>,
    filter: Seq<Seq<int>>,
    start: int,
    chans: nat,
    taps: nat,
    left: int,
)
    requires
        0 <= left,
        left + input.len() <= padded.len(),
        forall|t: int| 0 <= t < input.len() ==> #[trigger] padded[t + left] == input[t],
        forall|t: int, c: int|
            0 <= t < padded.len() && !(left <= t < left + input.len()) && 0 <= c < chans
                ==> #[trigger] padded[t][c] == 0,
    ensures
        conv_1d::window_sum(padded, filter, start + left, chans, taps) == conv_1d::window_sum(
            input,
            filter,
            start,
            chans,
            taps,
        ),
    decreases taps,
{
    if taps > 0 {
        let m = taps - 1;
        lemma_padded_window(input, padded, filter, start, chans, m as nat, left);
        let t = start + left + m;
        if 0 <= start + m < input.len() {
            assert(padded[(start + m) + left] == input[start + m]);
        } else if 0 <= t < padded.len() {
            accumulate::lemma_dot_zeros(padded[t], filter[m], chans);
        }
    }
}

/// Positions beyond the input behave as if filled with its zero point: the
/// sum of a window over the input is its sum over the input extended by
/// `left` and `right` timesteps of the zero point. Where the extension is the
/// padding of the geometry, every window lies inside the extended input.
pub proof fn law_padding_behaves_as_zero_point<
    T: Quantized,
    S,
    const TIMESTEPS: usize,
    const CHANS: usize,
    const KERNEL: usize,
    const FILTERS: usize,
    const FILTERS_QUANTS: usize,
>(
    input: Tensor4D<T, S, 1, 1, TIMESTEPS, CHANS, 1>,
    filters: Tensor4D<T, S, FILTERS, 1, KERNEL, CHANS, FILTERS_QUANTS>,
    options: Conv1DOptions,
    windows: int,
    left: nat,
    right: nat,
    t: int,
    f: int,
)
    ensures
        ({
            let zero_point = input.zero_point[0];
            let extended = filled(left, CHANS as nat, zero_point) + rows(input) + filled(
                right,
                CHANS as nat,
                zero_point,
            );
            let start = conv_1d::window_start(
                options,
                windows,
                KERNEL as int,
                TIMESTEPS as int,
                t,
            );
            let total = conv_1d::pad_total(
                windows,
                options.stride as int,
                KERNEL as int,
                TIMESTEPS as int,
            );
            &&& conv_1d::accumulator(input, filters, options, windows, t, f)
                == conv_1d::window_sum(
                centered_rows(extended, zero_point),
                conv_1d::weights(filters, f),
                start + left,
                CHANS as nat,
                KERNEL as nat,
            )
            &&& options.padding is Same && left == total / 2 && left + right == total && 0 <= t
                < windows ==> 0 <= start + left && start + left + KERNEL <= extended.len()
        }),
{
    let zero_point = input.zero_point[0];
    let before = filled(left, CHANS as nat, zero_point);
    let after = filled(right, CHANS as nat, zero_point);
    let extended = before + rows(input) + after;
    let padded = centered_rows(extended, zero_point);
    let start = conv_1d::window_start(options, windows, KERNEL as int, TIMESTEPS as int, t);
    assert forall|i: int| 0 <= i < TIMESTEPS implies #[trigger] padded[i + left]
        == conv_1d::samples(input)[i] by {
        assert(extended[i + left] == input.buffer[0][0][i]@);
    }
    assert forall|i: int, c: int|
        0 <= i < padded.len() && !(left <= i < left + TIMESTEPS) && 0 <= c
            < CHANS implies #[trigger] padded[i][c] == 0 by {
        if i < left {
            assert(extended[i] == before[i]);
        } else {
            assert(extended[i] == after[i - left - TIMESTEPS]);
        }
    }
    lemma_padded_window(
        conv_1d::samples(input),
        padded,
        conv_1d::weights(filters, f),
        start,
        CHANS as nat,
        KERNEL as nat,
        left as int,
    );
    let stride = options.stride as int;
    if 0 <= t < windows {
        assert(0 <= t * stride <= (windows - 1) * stride) by (nonlinear_arith)
            requires
                0 <= t <= windows - 1,
                stride >= 0,
        ;
    }
}

/// Moving every sample together with the zero point changes no sum.
pub proof fn law_shifted_input_gives_the_same_sums<
    T: Quantized,
    S,
    const TIMESTEPS: usize,
    const CHANS: usize,
    const KERNEL: usize,
    const FILTERS: usize,
    const FILTERS_QUANTS: usize,
>(
    input: Tensor4D<T, S, 1, 1, TIMESTEPS, CHANS, 1>,
    shifted: Tensor4D<T, S, 1, 1, TIMESTEPS, CHANS, 1>,
    filters: Tensor4D<T, S, FILTERS, 1, KERNEL, CHANS, FILTERS_QUANTS>,
    biases: Tensor2D<i32, S, FILTERS, 1, FILTERS_QUANTS>,
    options: Conv1DOptions,
    windows: int,
    t: int,
    f: int,
)
    requires
        forall|i: int, c: int|
            0 <= i < TIMESTEPS && 0 <= c < CHANS ==> #[trigger] shifted.buffer[0][0][i][c].value()
                - shifted.zero_point[0].value() == input.buffer[0][0][i][c].value()
                - input.zero_point[0].value(),
    ensures
        conv_1d::accumulator(shifted, filters, options, windows, t, f) == conv_1d::accumulator(
            input,
            filters,
            options,
            windows,
            t,
            f,
        ),
        conv_1d::raw_fits(shifted, filters, biases, options, windows, t, f) == conv_1d::raw_fits(
            input,
            filters,
            biases,
            options,
            windows,
            t,
            f,
        ),
{
    assert forall|i: int| 0 <= i < TIMESTEPS implies conv_1d::samples(shifted)[i]
        == conv_1d::samples(input)[i] by {
        assert(conv_1d::samples(shifted)[i] =~= conv_1d::samples(input)[i]);
    }
    assert(conv_1d::samples(shifted) =~= conv_1d::samples(input));
}

/// Filters whose channels share one zero point weigh as if it were given
/// once for all of them.
pub proof fn law_equal_channels_weigh_as_one<
    T: Quantized,
    S,
    const FILTERS: usize,
    const KERNEL: usize,
    const CHANS: usize,
    const QUANTS: usize,
>(
    per_tensor: Tensor4D<T, S, FILTERS, 1, KERNEL, CHANS, 1>,
    per_channel: Tensor4D<T, S, FILTERS, 1, KERNEL, CHANS, QUANTS>,
    f: int,
)
    requires
        0 <= f < FILTERS,
        QUANTS > 0,
        per_channel.buffer == per_tensor.buffer,
        forall|q: int|
            0 <= q < QUANTS ==> #[trigger] per_channel.zero_point[q] == per_tensor.zero_point[0],
    ensures
        conv_1d::weights(per_channel, f) == conv_1d::weights(per_tensor, f),
{
    assert(quantize::per_channel(per_channel.zero_point@, f) == per_tensor.zero_point[0]) by {
        if f < QUANTS {
            assert(per_channel.zero_point[f] == per_tensor.zero_point[0]);
        } else {
            assert(per_channel.zero_point[0] == per_tensor.zero_point[0]);
        }
    }
    assert(conv_1d::weights(per_channel, f) =~= conv_1d::weights(per_tensor, f));
}

/// With `Valid` padding every tap of every window lies inside the input.
pub proof fn law_valid_windows_stay_inside(
    options: Conv1DOptions,
    windows: int,
    kernel: int,
    timesteps: int,
    t: int,
    m: int,
)
    requires
        options.padding is Valid,
        conv_1d::geometry_defined(options, windows, kernel, timesteps),
        0 <= t < windows,
        0 <= m < kernel,
        0 <= timesteps,
    ensures
        0 <= conv_1d::window_start(options, windows, kernel, timesteps, t) + m < timesteps,
{
    conv_1d::lemma_window_end(options, windows, kernel, timesteps, t);
}

/// With `Valid` padding the windows are exactly those that start at a
/// multiple of the stride and fit inside the input.
pub proof fn law_valid_count(timesteps: int, kernel: int, stride: int, t: int)
    requires
        timesteps >= kernel >= 0,
        stride > 0,
        t >= 0,
    ensures
        ({
            let count = conv_1d::window_count(
                timesteps,
                kernel,
                stride,
                TensorViewPadding::Valid,
            )->Some_0;
            t < count <==> t * stride + kernel <= timesteps
        }),
{
    let q = (timesteps - kernel) / stride;
    assert(t <= q <==> t * stride <= timesteps - kernel) by (nonlinear_arith)
        requires
            q == (timesteps - kernel) / stride,
            stride > 0,
            timesteps >= kernel,
            t >= 0,
    ;
}

/// With `Valid` padding an output is never empty: there is a window, or the
/// geometry is refused.
pub proof fn law_valid_output_is_never_empty(timesteps: int, kernel: int, stride: int)
    requires
        timesteps >= 0,
        kernel >= 0,
        stride > 0,
    ensures
        match conv_1d::window_count(timesteps, kernel, stride, TensorViewPadding::Valid) {
            Some(count) => count >= 1 && kernel <= timesteps,
            None => kernel > timesteps,
        },
{
    if timesteps >= kernel {
        law_valid_count(timesteps, kernel, stride, 0);
    }
}

/// With `Same` padding the windows are exactly those whose stride position
/// lies inside the input.
pub proof fn law_same_count(timesteps: int, kernel: int, stride: int, t: int)
    requires
        timesteps >= 0,
        stride > 0,
        t >= 0,
    ensures
        ({
            let count = conv_1d::window_count(
                timesteps,
                kernel,
                stride,
                TensorViewPadding::Same,
            )->Some_0;
            t < count <==> t * stride < timesteps
        }),
{
    let n = (timesteps + stride - 1) / stride;
    assert(t < n <==> t * stride < timesteps) by (nonlinear_arith)
        requires
            n == (timesteps + stride - 1) / stride,
            stride > 0,
            timesteps >= 0,
            t >= 0,
    ;
}

/// `Same` padding at stride one keeps the number of timesteps.
pub proof fn law_same_at_stride_one_keeps_the_length(timesteps: int, kernel: int)
    requires
        timesteps >= 0,
    ensures
        conv_1d::window_count(timesteps, kernel, 1, TensorViewPadding::Same) == Some(timesteps),
{
}

/// The padding is split evenly, with the extra sample on the right, and is
/// less than the kernel: every window reads at least one sample.
pub proof fn law_padding_is_split_evenly(timesteps: int, kernel: int, stride: int, windows: int)
    requires
        timesteps >= 1,
        kernel >= 1,
        stride > 0,
        conv_1d::window_count(timesteps, kernel, stride, TensorViewPadding::Same) == Some(windows),
    ensures
        ({
            let total = conv_1d::pad_total(windows, stride, kernel, timesteps);
            let left = total / 2;
            let right = total - left;
            &&& left <= right <= left + 1
            &&& total < kernel
        }),
{
    assert(windows >= 1) by {
        law_same_count(timesteps, kernel, stride, 0);
    }
    law_same_count(timesteps, kernel, stride, windows - 1);
}

/// A window of bounded values adds up to a bounded sum.
proof fn lemma_window_bound(
    input: Seq<Seq<int>>,
    filter: Seq<Seq<int>>,
    start: int,
    chans: nat,
    taps: nat,
)
    requires
        forall|t: int, c: int|
            0 <= t < input.len() && 0 <= c < chans ==> -255 <= #[trigger] input[t][c] <= 255,
        forall|m: int, c: int|
            0 <= m < taps && 0 <= c < chans ==> -255 <= #[trigger] filter[m][c] <= 255,
    ensures
        -((taps * chans) * 65025) <= conv_1d::window_sum(input, filter, start, chans, taps) <= (
        taps * chans) * 65025,
    decreases taps,
{
    if taps > 0 {
        let m = taps - 1;
        lemma_window_bound(input, filter, start, chans, m as nat);
        if 0 <= start + m < input.len() {
            accumulate::lemma_dot_bound(input[start + m], filter[m], 255, chans);
        }
        assert(taps * chans == m * chans + chans) by (nonlinear_arith)
            requires
                m == taps - 1,
        ;
    }
}

/// The accumulator of a layer that is small enough never overflows, whatever
/// its input: every product is at most 255 times 255.
pub proof fn law_small_layers_fit<
    T: Quantized,
    S,
    const TIMESTEPS: usize,
    const CHANS: usize,
    const KERNEL: usize,
    const FILTERS: usize,
    const FILTERS_QUANTS: usize,
>(
    input: Tensor4D<T, S, 1, 1, TIMESTEPS, CHANS, 1>,
    filters: Tensor4D<T, S, FILTERS, 1, KERNEL, CHANS, FILTERS_QUANTS>,
    biases: Tensor2D<i32, S, FILTERS, 1, FILTERS_QUANTS>,
    options: Conv1DOptions,
    windows: int,
    t: int,
    f: int,
)
    requires
        0 <= f < FILTERS,
        (KERNEL * CHANS) * 65025 <= i32::MAX,
        (KERNEL * CHANS) * 65025 + biases.buffer[f][0] <= i32::MAX,
        i32::MIN <= biases.buffer[f][0] - (KERNEL * CHANS) * 65025,
    ensures
        conv_1d::raw_fits(input, filters, biases, options, windows, t, f),
{
    let x = conv_1d::samples(input);
    let w = conv_1d::weights(filters, f);
    let start = conv_1d::window_start(options, windows, KERNEL as int, TIMESTEPS as int, t);
    let chans = CHANS as nat;
    assert forall|i: int, c: int| 0 <= i < x.len() && 0 <= c < chans implies -255
        <= #[trigger] x[i][c] <= 255 by {
        input.buffer[0][0][i][c].range(input.zero_point[0]);
        input.zero_point[0].range(input.zero_point[0]);
    }
    assert forall|m: int, c: int| 0 <= m < KERNEL && 0 <= c < chans implies -255
        <= #[trigger] w[m][c] <= 255 by {
        let zero_point = quantize::per_channel(filters.zero_point@, f);
        filters.buffer[f][0][m][c].range(zero_point);
        zero_point.range(zero_point);
    }
    lemma_window_bound(x, w, start, chans, KERNEL as nat);
    assert forall|m: int| 0 <= m < KERNEL implies #[trigger] conv_1d::tap_fits(
        x,
        w,
        start,
        chans,
        m,
    ) by {
        if 0 <= start + m < x.len() {
            lemma_window_bound(x, w, start, chans, m as nat);
            assert forall|k: nat| k <= chans implies accumulate::fits(
                conv_1d::window_sum(x, w, start, chans, m as nat) + #[trigger] accumulate::dot(
                    x[start + m],
                    w[m],
                    k,
                ),
            ) by {
                accumulate::lemma_dot_bound(x[start + m], w[m], 255, k);
                assert(m * chans + k <= KERNEL * chans) by (nonlinear_arith)
                    requires
                        0 <= m < KERNEL,
                        k <= chans,
                ;
            }
        }
    }
}

/// A raw sum gives one output, if the arithmetic on scales gives one result:
/// the same input yields the same output every time.
pub proof fn law_output_is_determined<
    T: Quantized,
    S,
    M,
    P: Fn(S, S, S) -> M,
    R: Fn(i32, M, T) -> T,
    X: Fn(S, T) -> T,
>(
    arithmetic: Arithmetic<P, R, X>,
    scales: (S, S, S),
    zero_point: T,
    function: FusedActivation,
    raw: i32,
    a: T,
    b: T,
)
    requires
        forall|x: M, y: M|
            #[trigger] call_ensures(arithmetic.multiplier, scales, x) && #[trigger] call_ensures(
                arithmetic.multiplier,
                scales,
                y,
            ) ==> x == y,
        forall|factor: M, x: T, y: T|
            #[trigger] call_ensures(arithmetic.requantize, (raw, factor, zero_point), x)
                && #[trigger] call_ensures(arithmetic.requantize, (raw, factor, zero_point), y)
                ==> x == y,
        forall|x: T, y: T|
            #[trigger] call_ensures(arithmetic.quantize_six, (scales.2, zero_point), x)
                && #[trigger] call_ensures(arithmetic.quantize_six, (scales.2, zero_point), y)
                ==> x == y,
        conv_1d::requantized(arithmetic, scales, zero_point, function, raw, a),
        conv_1d::requantized(arithmetic, scales, zero_point, function, raw, b),
    ensures
        a == b,
{
    let (factor_a, value_a) = choose|factor: M, value: T|
        {
            &&& call_ensures(arithmetic.multiplier, scales, factor)
            &&& #[trigger] call_ensures(arithmetic.requantize, (raw, factor, zero_point), value)
            &&& activation::activated(
                function,
                arithmetic.quantize_six,
                scales.2,
                zero_point,
                value,
                a,
            )
        };
    let (factor_b, value_b) = choose|factor: M, value: T|
        {
            &&& call_ensures(arithmetic.multiplier, scales, factor)
            &&& #[trigger] call_ensures(arithmetic.requantize, (raw, factor, zero_point), value)
            &&& activation::activated(
                function,
                arithmetic.quantize_six,
                scales.2,
                zero_point,
                value,
                b,
            )
        };
    assert(factor_a == factor_b);
    assert(value_a == value_b);
    activation::law_activation_is_determined(
        function,
        arithmetic.quantize_six,
        scales.2,
        zero_point,
        value_a,
        a,
        b,
    );
}

/// A fused ReLU clamps at the output zero point.
pub proof fn law_fused_relu_clamps_at_the_zero_point<
    T: Quantized,
    S,
    M,
    P: Fn(S, S, S) -> M,
    R: Fn(i32, M, T) -> T,
    X: Fn(S, T) -> T,
>(
    arithmetic: Arithmetic<P, R, X>,
    scales: (S, S, S),
    zero_point: T,
    raw: i32,
    output: T,
)
    requires
        conv_1d::requantized(
            arithmetic,
            scales,
            zero_point,
            FusedActivation::Relu,
            raw,
            output,
        ),
    ensures
        zero_point.value() <= output.value(),
{
}

/// Whether the arithmetic on scales gives one result for one input.
pub open spec fn gives_one_result<
    T: Quantized,
    S,
    M,
    P: Fn(S, S, S) -> M,
    R: Fn(i32, M, T) -> T,
    X: Fn(S, T) -> T,
>(arithmetic: Arithmetic<P, R, X>) -> bool {
    &&& forall|scales: (S, S, S), x: M, y: M|
        #[trigger] call_ensures(arithmetic.multiplier, scales, x) && #[trigger] call_ensures(
            arithmetic.multiplier,
            scales,
            y,
        ) ==> x == y
    &&& forall|raw: i32, factor: M, zero_point: T, x: T, y: T|
        #[trigger] call_ensures(arithmetic.requantize, (raw, factor, zero_point), x)
            && #[trigger] call_ensures(arithmetic.requantize, (raw, factor, zero_point), y) ==> x
            == y
    &&& forall|scale: S, zero_point: T, x: T, y: T|
        #[trigger] call_ensures(arithmetic.quantize_six, (scale, zero_point), x)
            && #[trigger] call_ensures(arithmetic.quantize_six, (scale, zero_point), y) ==> x == y
}

/// The rectified output of a raw sum is the maximum of its plain output and
/// the zero point.
proof fn lemma_relu_rectifies<
    T: Quantized,
    S,
    M,
    P: Fn(S, S, S) -> M,
    R: Fn(i32, M, T) -> T,
    X: Fn(S, T) -> T,
>(
    arithmetic: Arithmetic<P, R, X>,
    scales: (S, S, S),
    zero_point: T,
    raw: i32,
    plain: T,
    clamped: T,
)
    requires
        gives_one_result(arithmetic),
        conv_1d::requantized(
            arithmetic,
            scales,
            zero_point,
            FusedActivation::Linear,
            raw,
            plain,
        ),
        conv_1d::requantized(
            arithmetic,
            scales,
            zero_point,
            FusedActivation::Relu,
            raw,
            clamped,
        ),
    ensures
        clamped == activation::rectified(plain, zero_point),
{
    let (factor_a, value_a) = choose|factor: M, value: T|
        {
            &&& call_ensures(arithmetic.multiplier, scales, factor)
            &&& #[trigger] call_ensures(arithmetic.requantize, (raw, factor, zero_point), value)
            &&& activation::activated(
                FusedActivation::Linear,
                arithmetic.quantize_six,
                scales.2,
                zero_point,
                value,
                plain,
            )
        };
    let (factor_b, value_b) = choose|factor: M, value: T|
        {
            &&& call_ensures(arithmetic.multiplier, scales, factor)
            &&& #[trigger] call_ensures(arithmetic.requantize, (raw, factor, zero_point), value)
            &&& activation::activated(
                FusedActivation::Relu,
                arithmetic.quantize_six,
                scales.2,
                zero_point,
                value,
                clamped,
            )
        };
    assert(factor_a == factor_b);
    assert(value_a == value_b);
}

/// The result with a fused ReLU is, at every position, the maximum of the
/// result without it and the output zero point, if the arithmetic on scales
/// gives one result. So no output of a ReLU lies below the zero point.
pub proof fn law_fused_relu_is_the_maximum<
    T: Quantized,
    S,
    M,
    P: Fn(S, S, S) -> M,
    R: Fn(i32, M, T) -> T,
    X: Fn(S, T) -> T,
    const TIMESTEPS: usize,
    const CHANS: usize,
    const KERNEL: usize,
    const FILTERS: usize,
    const FILTERS_QUANTS: usize,
    const OUTPUT_TIMESTEPS: usize,
>(
    plain: Tensor4D<T, S, 1, 1, OUTPUT_TIMESTEPS, FILTERS, 1>,
    clamped: Tensor4D<T, S, 1, 1, OUTPUT_TIMESTEPS, FILTERS, 1>,
    input: Tensor4D<T, S, 1, 1, TIMESTEPS, CHANS, 1>,
    filters: Tensor4D<T, S, FILTERS, 1, KERNEL, CHANS, FILTERS_QUANTS>,
    biases: Tensor2D<i32, S, FILTERS, 1, FILTERS_QUANTS>,
    output_scale: [S; 1],
    output_zero_point: [T; 1],
    padding: TensorViewPadding,
    stride: usize,
    arithmetic: Arithmetic<P, R, X>,
)
    requires
        gives_one_result(arithmetic),
        conv_1d::is_convolution(
            plain,
            input,
            filters,
            biases,
            output_scale,
            output_zero_point,
            (Conv1DOptions { fused_activation: FusedActivation::Linear, padding, stride }),
            arithmetic,
        ),
        conv_1d::is_convolution(
            clamped,
            input,
            filters,
            biases,
            output_scale,
            output_zero_point,
            (Conv1DOptions { fused_activation: FusedActivation::Relu, padding, stride }),
            arithmetic,
        ),
    ensures
        forall|t: int, f: int|
            0 <= t < OUTPUT_TIMESTEPS && 0 <= f < FILTERS ==> {
                &&& #[trigger] clamped.buffer[0][0][t][f] == activation::rectified(
                    plain.buffer[0][0][t][f],
                    output_zero_point[0],
                )
                &&& output_zero_point[0].value() <= clamped.buffer[0][0][t][f].value()
            },
{
    let options = Conv1DOptions { fused_activation: FusedActivation::Linear, padding, stride };
    let relu = Conv1DOptions { fused_activation: FusedActivation::Relu, padding, stride };
    let windows = OUTPUT_TIMESTEPS as int;
    assert forall|t: int, f: int| 0 <= t < OUTPUT_TIMESTEPS && 0 <= f < FILTERS implies {
        &&& #[trigger] clamped.buffer[0][0][t][f] == activation::rectified(
            plain.buffer[0][0][t][f],
            output_zero_point[0],
        )
        &&& output_zero_point[0].value() <= clamped.buffer[0][0][t][f].value()
    } by {
        let sum = conv_1d::accumulator(input, filters, options, windows, t, f);
        assert(sum == conv_1d::accumulator(input, filters, relu, windows, t, f));
        lemma_relu_rectifies(
            arithmetic,
            (input.scale[0], quantize::per_channel(filters.scale@, f), output_scale[0]),
            output_zero_point[0],
            (sum + biases.buffer[f][0]) as i32,
            plain.buffer[0][0][t][f],
            clamped.buffer[0][0][t][f],
        );
    }
}

/// Moving every sample together with the zero point leaves the operation
/// defined where it was.
pub proof fn law_shifted_input_is_defined_alike<
    T: Quantized,
    S,
    const TIMESTEPS: usize,
    const CHANS: usize,
    const KERNEL: usize,
    const FILTERS: usize,
    const FILTERS_QUANTS: usize,
>(
    input: Tensor4D<T, S, 1, 1, TIMESTEPS, CHANS, 1>,
    shifted: Tensor4D<T, S, 1, 1, TIMESTEPS, CHANS, 1>,
    filters: Tensor4D<T, S, FILTERS, 1, KERNEL, CHANS, FILTERS_QUANTS>,
    biases: Tensor2D<i32, S, FILTERS, 1, FILTERS_QUANTS>,
    options: Conv1DOptions,
    windows: int,
)
    requires
        forall|i: int, c: int|
            0 <= i < TIMESTEPS && 0 <= c < CHANS ==> #[trigger] shifted.buffer[0][0][i][c].value()
                - shifted.zero_point[0].value() == input.buffer[0][0][i][c].value()
                - input.zero_point[0].value(),
    ensures
        conv_1d::conv_1d_defined(shifted, filters, biases, options, windows)
            == conv_1d::conv_1d_defined(input, filters, biases, options, windows),
{
    assert forall|t: int, f: int| true implies #[trigger] conv_1d::raw_fits(
        shifted,
        filters,
        biases,
        options,
        windows,
        t,
        f,
    ) == conv_1d::raw_fits(input, filters, biases, options, windows, t, f) by {
        law_shifted_input_gives_the_same_sums(
            input,
            shifted,
            filters,
            biases,
            options,
            windows,
            t,
            f,
        );
    }
    if conv_1d::conv_1d_defined(shifted, filters, biases, options, windows) {
        assert forall|t: int, f: int|
            0 <= t < windows && 0 <= f < FILTERS implies #[trigger] conv_1d::raw_fits(
            input,
            filters,
            biases,
            options,
            windows,
            t,
            f,
        ) by {
            assert(conv_1d::raw_fits(shifted, filters, biases, options, windows, t, f));
        }
    }
}

/// The result depends on the samples less the zero point alone: moving every
/// sample together with the zero point changes no output, with either
/// padding, if the arithmetic on scales gives one result.
pub proof fn law_shifted_input_gives_the_same_output<
    T: Quantized,
    S,
    M,
    P: Fn(S, S, S) -> M,
    R: Fn(i32, M, T) -> T,
    X: Fn(S, T) -> T,
    const TIMESTEPS: usize,
    const CHANS: usize,
    const KERNEL: usize,
    const FILTERS: usize,
    const FILTERS_QUANTS: usize,
    const OUTPUT_TIMESTEPS: usize,
>(
    output: Tensor4D<T, S, 1, 1, OUTPUT_TIMESTEPS, FILTERS, 1>,
    shifted_output: Tensor4D<T, S, 1, 1, OUTPUT_TIMESTEPS, FILTERS, 1>,
    input: Tensor4D<T, S, 1, 1, TIMESTEPS, CHANS, 1>,
    shifted: Tensor4D<T, S, 1, 1, TIMESTEPS, CHANS, 1>,
    filters: Tensor4D<T, S, FILTERS, 1, KERNEL, CHANS, FILTERS_QUANTS>,
    biases: Tensor2D<i32, S, FILTERS, 1, FILTERS_QUANTS>,
    output_scale: [S; 1],
    output_zero_point: [T; 1],
    options: Conv1DOptions,
    arithmetic: Arithmetic<P, R, X>,
)
    requires
        gives_one_result(arithmetic),
        shifted.scale == input.scale,
        forall|i: int, c: int|
            0 <= i < TIMESTEPS && 0 <= c < CHANS ==> #[trigger] shifted.buffer[0][0][i][c].value()
                - shifted.zero_point[0].value() == input.buffer[0][0][i][c].value()
                - input.zero_point[0].value(),
        conv_1d::is_convolution(
            output,
            input,
            filters,
            biases,
            output_scale,
            output_zero_point,
            options,
            arithmetic,
        ),
        conv_1d::is_convolution(
            shifted_output,
            shifted,
            filters,
            biases,
            output_scale,
            output_zero_point,
            options,
            arithmetic,
        ),
    ensures
        shifted_output.scale == output.scale,
        shifted_output.zero_point == output.zero_point,
        forall|t: int, f: int|
            0 <= t < OUTPUT_TIMESTEPS && 0 <= f < FILTERS
                ==> #[trigger] shifted_output.buffer[0][0][t][f] == output.buffer[0][0][t][f],
{
    let windows = OUTPUT_TIMESTEPS as int;
    assert forall|t: int, f: int|
        0 <= t < OUTPUT_TIMESTEPS && 0 <= f
            < FILTERS implies #[trigger] shifted_output.buffer[0][0][t][f]
        == output.buffer[0][0][t][f] by {
        law_shifted_input_gives_the_same_sums(
            input,
            shifted,
            filters,
            biases,
            options,
            windows,
            t,
            f,
        );
        let sum = conv_1d::accumulator(input, filters, options, windows, t, f);
        law_output_is_determined(
            arithmetic,
            (input.scale[0], quantize::per_channel(filters.scale@, f), output_scale[0]),
            output_zero_point[0],
            options.fused_activation,
            (sum + biases.buffer[f][0]) as i32,
            shifted_output.buffer[0][0][t][f],
            output.buffer[0][0][t][f],
        );
    }
}

} // verus!
