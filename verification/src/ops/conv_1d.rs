//! Convolution along one axis.
use crate::activation;
use crate::activation::{activate, FusedActivation};
use crate::ops::accumulate;
use crate::quantize;
use crate::quantize::{channel_parameter, Quantized};
use crate::tensor::{Tensor2D, Tensor4D, TensorViewPadding};
use vstd::prelude::*;

verus! {

/// Options of the Conv1D operator.
#[derive(Clone, Copy, Debug, PartialEq, Eq, Structural)]
pub struct Conv1DOptions {
    pub fused_activation: FusedActivation,
    pub padding: TensorViewPadding,
    /// Stride along the time axis.
    pub stride: usize,
}

/// The least number of strides that cover `timesteps`.
pub open spec fn strides_over(timesteps: int, stride: int) -> int {
    (timesteps + stride - 1) / stride
}

/// The number of windows of a geometry, `None` where the kernel does not fit
/// inside the input.
pub open spec fn window_count(
    timesteps: int,
    kernel: int,
    stride: int,
    padding: TensorViewPadding,
) -> Option<int> {
    match padding {
        TensorViewPadding::Valid => if timesteps >= kernel {
            Some((timesteps - kernel) / stride + 1)
        } else {
            None
        },
        TensorViewPadding::Same => Some(strides_over(timesteps, stride)),
    }
}

/// Whether the number of windows can be computed: there is a stride to
/// divide by, where one is needed, and the number can be held.
pub open spec fn window_count_defined(
    timesteps: int,
    kernel: int,
    stride: int,
    padding: TensorViewPadding,
) -> bool {
    window_count(timesteps, kernel, stride, padding) matches Some(n) ==> stride > 0 && n
        <= usize::MAX
}

/// Number of output timesteps for the given geometry.
///
/// Returns `None` when the geometry is not representable: with `Valid`
/// padding the kernel must fit inside the input, because empty outputs are
/// forbidden.
pub fn output_len(
    timesteps: usize,
    kernel: usize,
    stride: usize,
    padding: TensorViewPadding,
) -> (r: Option<usize>)
    requires
        window_count_defined(timesteps as int, kernel as int, stride as int, padding),
    ensures
        match (r, window_count(timesteps as int, kernel as int, stride as int, padding)) {
            (Some(n), Some(count)) => n == count,
            (None, None) => true,
            _ => false,
        },
{
    match padding {
        TensorViewPadding::Valid => {
            if timesteps >= kernel {
                Some((timesteps - kernel) / stride + 1)
            } else {
                None
            }
        },
        TensorViewPadding::Same => {
            let whole: usize = timesteps / stride;
            proof {
                lemma_strides_over(timesteps as int, stride as int);
            }
            if timesteps % stride == 0 {
                Some(whole)
            } else {
                Some(whole + 1)
            }
        },
    }
}

/// The strides over a length are its whole strides, and one more where
/// something is left.
pub proof fn lemma_strides_over(timesteps: int, stride: int)
    requires
        timesteps >= 0,
        stride > 0,
    ensures
        strides_over(timesteps, stride) == timesteps / stride + (if timesteps % stride == 0 {
            0int
        } else {
            1
        }),
        strides_over(timesteps, stride) <= timesteps,
{
    let q = timesteps / stride;
    let r = timesteps % stride;
    assert(timesteps == q * stride + r && 0 <= r < stride) by (nonlinear_arith)
        requires
            stride > 0,
            q == timesteps / stride,
            r == timesteps % stride,
    ;
    assert(q >= 0) by (nonlinear_arith)
        requires
            timesteps >= 0,
            stride > 0,
            q == timesteps / stride,
    ;
    if r == 0 {
        assert((timesteps + stride - 1) / stride == q) by (nonlinear_arith)
            requires
                timesteps == q * stride,
                stride > 0,
        ;
    } else {
        assert((timesteps + stride - 1) / stride == q + 1) by (nonlinear_arith)
            requires
                timesteps == q * stride + r,
                0 < r < stride,
        ;
    }
    assert(q * stride >= q) by (nonlinear_arith)
        requires
            q >= 0,
            stride > 0,
    ;
}

/// The timesteps between the first sample of the first window and the end of
/// the last one.
pub open spec fn span(windows: int, stride: int, kernel: int) -> int {
    (windows - 1) * stride + kernel
}

/// The number of samples that are missing in the input, over both sides.
pub open spec fn pad_total(windows: int, stride: int, kernel: int, timesteps: int) -> int {
    if span(windows, stride, kernel) > timesteps {
        span(windows, stride, kernel) - timesteps
    } else {
        0
    }
}

/// Left padding of the "same" scheme.
///
/// The total padding is split with the extra sample on the right.
pub fn same_pad_left(output_len: usize, stride: usize, kernel: usize, timesteps: usize) -> (r:
    usize)
    requires
        output_len >= 1,
        span(output_len as int, stride as int, kernel as int) <= usize::MAX,
    ensures
        r == pad_total(output_len as int, stride as int, kernel as int, timesteps as int) / 2,
{
    assert((output_len - 1) * stride >= 0) by (nonlinear_arith)
        requires
            output_len >= 1,
            stride >= 0,
    ;
    let pad_total: usize = ((output_len - 1) * stride + kernel).saturating_sub(timesteps);
    pad_total / 2
}

/// The sum of the products of a window with the first `taps` rows of a
/// filter. A tap beyond the input contributes nothing.
pub open spec fn window_sum(
    input: Seq<Seq<int>>,
    filter: Seq<Seq<int>>,
    start: int,
    chans: nat,
    taps: nat,
) -> int
    decreases taps,
{
    if taps == 0 {
        0
    } else {
        let m = taps - 1;
        window_sum(input, filter, start, chans, m as nat) + (if 0 <= start + m < input.len() {
            accumulate::dot(input[start + m], filter[m], chans)
        } else {
            0
        })
    }
}

/// Whether the accumulator can hold every partial sum of one tap of a window.
pub open spec fn tap_fits(
    input: Seq<Seq<int>>,
    filter: Seq<Seq<int>>,
    start: int,
    chans: nat,
    m: int,
) -> bool {
    0 <= start + m < input.len() ==> accumulate::dot_fits(
        window_sum(input, filter, start, chans, m as nat),
        input[start + m],
        filter[m],
        chans,
    )
}

/// Whether the accumulator can hold every partial sum of a window.
pub open spec fn window_fits(
    input: Seq<Seq<int>>,
    filter: Seq<Seq<int>>,
    start: int,
    chans: nat,
    taps: nat,
) -> bool {
    forall|m: int| 0 <= m < taps ==> #[trigger] tap_fits(input, filter, start, chans, m)
}

/// The samples of an input, each less the zero point: one row of channels
/// per timestep.
pub open spec fn samples<T: Quantized, S, const TIMESTEPS: usize, const CHANS: usize>(
    input: Tensor4D<T, S, 1, 1, TIMESTEPS, CHANS, 1>,
) -> Seq<Seq<int>> {
    Seq::new(
        TIMESTEPS as nat,
        |t: int| accumulate::centered(input.buffer[0][0][t]@, input.zero_point[0].value()),
    )
}

/// The weights of one filter, each less the filter's zero point: one row of
/// channels per tap.
pub open spec fn weights<
    T: Quantized,
    S,
    const FILTERS: usize,
    const KERNEL: usize,
    const CHANS: usize,
    const QUANTS: usize,
>(filters: Tensor4D<T, S, FILTERS, 1, KERNEL, CHANS, QUANTS>, f: int) -> Seq<Seq<int>> {
    Seq::new(
        KERNEL as nat,
        |m: int|
            accumulate::centered(
                filters.buffer[f][0][m]@,
                quantize::per_channel(filters.zero_point@, f).value(),
            ),
    )
}

/// The timesteps by which the first window starts before the input.
pub open spec fn pad_left(options: Conv1DOptions, windows: int, kernel: int, timesteps: int) -> int {
    match options.padding {
        TensorViewPadding::Same => pad_total(windows, options.stride as int, kernel, timesteps)
            / 2,
        TensorViewPadding::Valid => 0,
    }
}

/// The timestep at which window `t` starts; below zero where it starts
/// before the input.
pub open spec fn window_start(
    options: Conv1DOptions,
    windows: int,
    kernel: int,
    timesteps: int,
    t: int,
) -> int {
    t * options.stride - pad_left(options, windows, kernel, timesteps)
}

/// The sum of the products of window `t` with filter `f`, both centered at
/// their zero points.
pub open spec fn accumulator<
    T: Quantized,
    S,
    const TIMESTEPS: usize,
    const CHANS: usize,
    const KERNEL: usize,
    const FILTERS: usize,
    const FILTERS_QUANTS: usize,
>(
    input: Tensor4D<T, S, 1, 1, TIMESTEPS, CHANS, 1>,
    filters: Tensor4D<T, S, FILTERS, 1, KERNEL, CHANS, FILTERS_QUANTS>,
    options: Conv1DOptions,
    windows: int,
    t: int,
    f: int,
) -> int {
    window_sum(
        samples(input),
        weights(filters, f),
        window_start(options, windows, KERNEL as int, TIMESTEPS as int, t),
        CHANS as nat,
        KERNEL as nat,
    )
}

/// Whether `windows` is the number of windows of a geometry whose positions
/// can be held.
pub open spec fn geometry_defined(
    options: Conv1DOptions,
    windows: int,
    kernel: int,
    timesteps: int,
) -> bool {
    &&& window_count_defined(timesteps, kernel, options.stride as int, options.padding)
    &&& window_count(timesteps, kernel, options.stride as int, options.padding) == Some(windows)
    &&& options.padding is Same ==> windows >= 1 && span(windows, options.stride as int, kernel)
        <= isize::MAX
}

/// Whether the sum of window `t` with filter `f` and its bias never leaves
/// the accumulator.
pub open spec fn raw_fits<
    T: Quantized,
    S,
    const TIMESTEPS: usize,
    const CHANS: usize,
    const KERNEL: usize,
    const FILTERS: usize,
    const FILTERS_QUANTS: usize,
>(
    input: Tensor4D<T, S, 1, 1, TIMESTEPS, CHANS, 1>,
    filters: Tensor4D<T, S, FILTERS, 1, KERNEL, CHANS, FILTERS_QUANTS>,
    biases: Tensor2D<i32, S, FILTERS, 1, FILTERS_QUANTS>,
    options: Conv1DOptions,
    windows: int,
    t: int,
    f: int,
) -> bool {
    &&& window_fits(
        samples(input),
        weights(filters, f),
        window_start(options, windows, KERNEL as int, TIMESTEPS as int, t),
        CHANS as nat,
        KERNEL as nat,
    )
    &&& accumulate::fits(
        accumulator(input, filters, options, windows, t, f) + biases.buffer[f][0],
    )
}

/// Whether the convolution is defined: its geometry matches the number of
/// output timesteps, every filter has a zero point, and no sum leaves the
/// accumulator.
pub open spec fn conv_1d_defined<
    T: Quantized,
    S,
    const TIMESTEPS: usize,
    const CHANS: usize,
    const KERNEL: usize,
    const FILTERS: usize,
    const FILTERS_QUANTS: usize,
>(
    input: Tensor4D<T, S, 1, 1, TIMESTEPS, CHANS, 1>,
    filters: Tensor4D<T, S, FILTERS, 1, KERNEL, CHANS, FILTERS_QUANTS>,
    biases: Tensor2D<i32, S, FILTERS, 1, FILTERS_QUANTS>,
    options: Conv1DOptions,
    windows: int,
) -> bool {
    &&& geometry_defined(options, windows, KERNEL as int, TIMESTEPS as int)
    &&& FILTERS > 0 ==> FILTERS_QUANTS > 0
    &&& forall|t: int, f: int|
        0 <= t < windows && 0 <= f < FILTERS ==> #[trigger] raw_fits(
            input,
            filters,
            biases,
            options,
            windows,
            t,
            f,
        )
}

/// Adds up the products of a window with a filter, `None` where the
/// accumulator overflows.
fn checked_window_sum<
    T: Quantized,
    S,
    const TIMESTEPS: usize,
    const CHANS: usize,
    const KERNEL: usize,
    const FILTERS: usize,
    const FILTERS_QUANTS: usize,
>(
    input: &Tensor4D<T, S, 1, 1, TIMESTEPS, CHANS, 1>,
    filters: &Tensor4D<T, S, FILTERS, 1, KERNEL, CHANS, FILTERS_QUANTS>,
    f: usize,
    origin: usize,
    pad: usize,
) -> (r: Option<i32>)
    requires
        f < FILTERS,
        FILTERS_QUANTS > 0,
        origin + KERNEL <= usize::MAX,
    ensures
        r is Some <==> window_fits(
            samples(*input),
            weights(*filters, f as int),
            origin - pad,
            CHANS as nat,
            KERNEL as nat,
        ),
        r matches Some(sum) ==> sum == window_sum(
            samples(*input),
            weights(*filters, f as int),
            origin - pad,
            CHANS as nat,
            KERNEL as nat,
        ),
{
    let ghost rows = samples(*input);
    let ghost taps = weights(*filters, f as int);
    let ghost start = origin - pad;
    let filter_zero_point = channel_parameter(&filters.zero_point, f);
    let mut sum: i32 = 0;
    let mut m: usize = 0;
    #[verifier::loop_isolation(false)]
    while m < KERNEL
        invariant
            m <= KERNEL,
            sum == window_sum(rows, taps, start, CHANS as nat, m as nat),
            window_fits(rows, taps, start, CHANS as nat, m as nat),
        decreases KERNEL - m,
    {
        let position: usize = origin + m;
        if position >= pad && position - pad < TIMESTEPS {
            let t: usize = position - pad;
            assert(rows[start + m] == accumulate::centered(
                input.buffer[0][0][t as int]@,
                input.zero_point[0].value(),
            ));
            match accumulate::accumulate(
                sum,
                &input.buffer[0][0][t],
                input.zero_point[0],
                &filters.buffer[f][0][m],
                filter_zero_point,
            ) {
                Some(next) => {
                    sum = next;
                },
                None => {
                    assert(!tap_fits(rows, taps, start, CHANS as nat, m as int));
                    return None;
                },
            }
        }
        m += 1;
    }
    Some(sum)
}

/// Every window of a geometry ends where its position can be held.
pub proof fn lemma_window_end(
    options: Conv1DOptions,
    windows: int,
    kernel: int,
    timesteps: int,
    t: int,
)
    requires
        geometry_defined(options, windows, kernel, timesteps),
        0 <= t < windows,
        0 <= kernel,
        0 <= timesteps,
    ensures
        0 <= t * options.stride,
        options.padding is Valid ==> t * options.stride + kernel <= timesteps,
        options.padding is Same ==> t * options.stride + kernel <= isize::MAX,
{
    let stride = options.stride as int;
    assert(0 <= t * stride <= (windows - 1) * stride) by (nonlinear_arith)
        requires
            0 <= t <= windows - 1,
            stride > 0,
    ;
    if options.padding is Valid {
        assert(((timesteps - kernel) / stride) * stride <= timesteps - kernel)
            by (nonlinear_arith)
            requires
                stride > 0,
        ;
    }
}

/// Adds up every window with every filter and its bias: `None` where the
/// geometry does not match the number of output timesteps, where a filter
/// has no zero point, or where the accumulator overflows.
pub fn checked_accumulators<
    T: Quantized,
    S,
    const TIMESTEPS: usize,
    const CHANS: usize,
    const KERNEL: usize,
    const FILTERS: usize,
    const FILTERS_QUANTS: usize,
    const OUTPUT_TIMESTEPS: usize,
>(
    input: &Tensor4D<T, S, 1, 1, TIMESTEPS, CHANS, 1>,
    filters: &Tensor4D<T, S, FILTERS, 1, KERNEL, CHANS, FILTERS_QUANTS>,
    biases: &Tensor2D<i32, S, FILTERS, 1, FILTERS_QUANTS>,
    options: Conv1DOptions,
) -> (r: Option<[[i32; FILTERS]; OUTPUT_TIMESTEPS]>)
    ensures
        r is Some <==> conv_1d_defined(
            *input,
            *filters,
            *biases,
            options,
            OUTPUT_TIMESTEPS as int,
        ),
        r matches Some(sums) ==> forall|t: int, f: int|
            0 <= t < OUTPUT_TIMESTEPS && 0 <= f < FILTERS ==> #[trigger] sums[t][f] == accumulator(
                *input,
                *filters,
                options,
                OUTPUT_TIMESTEPS as int,
                t,
                f,
            ) + biases.buffer[f][0],
{
    let ghost windows = OUTPUT_TIMESTEPS as int;
    let pad: usize = match checked_pad_left(options, OUTPUT_TIMESTEPS, KERNEL, TIMESTEPS) {
        Some(pad) => pad,
        None => {
            return None;
        },
    };
    if FILTERS > 0 && FILTERS_QUANTS == 0 {
        return None;
    }
    let mut sums: [[i32; FILTERS]; OUTPUT_TIMESTEPS] = [[0i32; FILTERS]; OUTPUT_TIMESTEPS];
    let mut t: usize = 0;
    #[verifier::loop_isolation(false)]
    while t < OUTPUT_TIMESTEPS
        invariant
            t <= OUTPUT_TIMESTEPS,
            forall|i: int, f: int|
                0 <= i < t && 0 <= f < FILTERS ==> #[trigger] raw_fits(
                    *input,
                    *filters,
                    *biases,
                    options,
                    windows,
                    i,
                    f,
                ),
            forall|i: int, f: int|
                0 <= i < t && 0 <= f < FILTERS ==> #[trigger] sums[i][f] == accumulator(
                    *input,
                    *filters,
                    options,
                    windows,
                    i,
                    f,
                ) + biases.buffer[f][0],
        decreases OUTPUT_TIMESTEPS - t,
    {
        proof {
            lemma_window_end(options, windows, KERNEL as int, TIMESTEPS as int, t as int);
        }
        let origin: usize = t * options.stride;
        let mut f: usize = 0;
        #[verifier::loop_isolation(false)]
        while f < FILTERS
            invariant
                f <= FILTERS,
                forall|j: int|
                    0 <= j < f ==> #[trigger] raw_fits(
                        *input,
                        *filters,
                        *biases,
                        options,
                        windows,
                        t as int,
                        j,
                    ),
                forall|i: int, j: int|
                    (0 <= i < t && 0 <= j < FILTERS) || (i == t && 0 <= j < f)
                        ==> #[trigger] sums[i][j] == accumulator(
                        *input,
                        *filters,
                        options,
                        windows,
                        i,
                        j,
                    ) + biases.buffer[j][0],
            decreases FILTERS - f,
        {
            let sum: i32 = match checked_window_sum(input, filters, f, origin, pad) {
                Some(sum) => sum,
                None => {
                    assert(!raw_fits(
                        *input,
                        *filters,
                        *biases,
                        options,
                        windows,
                        t as int,
                        f as int,
                    ));
                    return None;
                },
            };
            match sum.checked_add(biases.buffer[f][0]) {
                Some(raw) => {
                    sums[t][f] = raw;
                },
                None => {
                    assert(!raw_fits(
                        *input,
                        *filters,
                        *biases,
                        options,
                        windows,
                        t as int,
                        f as int,
                    ));
                    return None;
                },
            }
            f += 1;
        }
        t += 1;
    }
    Some(sums)
}

/// The left padding of a geometry: `None` where the number of windows is not
/// the given one or a position cannot be held.
fn checked_pad_left(
    options: Conv1DOptions,
    windows: usize,
    kernel: usize,
    timesteps: usize,
) -> (r: Option<usize>)
    ensures
        r is Some <==> geometry_defined(options, windows as int, kernel as int, timesteps as int),
        r matches Some(pad) ==> pad == pad_left(
            options,
            windows as int,
            kernel as int,
            timesteps as int,
        ),
{
    if options.stride == 0 {
        return None;
    }
    match options.padding {
        TensorViewPadding::Valid => {
            if timesteps < kernel || (timesteps - kernel) / options.stride == usize::MAX {
                return None;
            }
        },
        TensorViewPadding::Same => {
            proof {
                lemma_strides_over(timesteps as int, options.stride as int);
            }
        },
    }
    if output_len(timesteps, kernel, options.stride, options.padding) != Some(windows) {
        return None;
    }
    match options.padding {
        TensorViewPadding::Valid => Some(0),
        TensorViewPadding::Same => {
            if windows == 0 {
                return None;
            }
            match (windows - 1).checked_mul(options.stride) {
                Some(reach) => match reach.checked_add(kernel) {
                    Some(span) => if span <= isize::MAX as usize {
                        Some(same_pad_left(windows, options.stride, kernel, timesteps))
                    } else {
                        None
                    },
                    None => None,
                },
                None => None,
            }
        },
    }
}

/// The operations on scales that the operator is given.
pub struct Arithmetic<P, R, X> {
    /// The multiplier of the scales of the input, the filter and the output.
    pub multiplier: P,
    /// A raw sum scaled by a multiplier, moved to the zero point and
    /// saturated.
    pub requantize: R,
    /// Six, quantized with a scale and a zero point.
    pub quantize_six: X,
}

/// What requantization and the fused activation function make of a raw sum
/// of filter `f`.
pub open spec fn requantized<
    T: Quantized,
    S,
    M,
    P: Fn(S, S, S) -> M,
    R: Fn(i32, M, T) -> T,
    X: Fn(S, T) -> T,
>(
    arithmetic: Arithmetic<P, R, X>,
    scales: (S, S, S),
    zero_point: T,
    function: FusedActivation,
    raw: i32,
    output: T,
) -> bool {
    exists|factor: M, value: T|
        {
            &&& call_ensures(arithmetic.multiplier, scales, factor)
            &&& #[trigger] call_ensures(arithmetic.requantize, (raw, factor, zero_point), value)
            &&& activation::activated(
                function,
                arithmetic.quantize_six,
                scales.2,
                zero_point,
                value,
                output,
            )
        }
}

/// Whether `output` is the convolution of an input with some filters and
/// biases: it has the given scale and zero point, and every element is what
/// requantization and the fused activation function make of its raw sum.
pub open spec fn is_convolution<
    T: Quantized,
    S,
    M,
    P: Fn(S, S, S) -> M,
    R: Fn(i32, M, T) -> T,
    X: Fn(S, T) -> T,
    const TIMESTEPS: usize,
    const CHANS: usize,
    const KERNEL: usize,
    const FILTERS: usize,
    const FILTERS_QUANTS: usize,
    const OUTPUT_TIMESTEPS: usize,
>(
    output: Tensor4D<T, S, 1, 1, OUTPUT_TIMESTEPS, FILTERS, 1>,
    input: Tensor4D<T, S, 1, 1, TIMESTEPS, CHANS, 1>,
    filters: Tensor4D<T, S, FILTERS, 1, KERNEL, CHANS, FILTERS_QUANTS>,
    biases: Tensor2D<i32, S, FILTERS, 1, FILTERS_QUANTS>,
    output_scale: [S; 1],
    output_zero_point: [T; 1],
    options: Conv1DOptions,
    arithmetic: Arithmetic<P, R, X>,
) -> bool {
    &&& output.scale == output_scale
    &&& output.zero_point == output_zero_point
    &&& forall|t: int, f: int|
        0 <= t < OUTPUT_TIMESTEPS && 0 <= f < FILTERS ==> requantized(
            arithmetic,
            (input.scale[0], quantize::per_channel(filters.scale@, f), output_scale[0]),
            output_zero_point[0],
            options.fused_activation,
            (accumulator(input, filters, options, OUTPUT_TIMESTEPS as int, t, f)
                + biases.buffer[f][0]) as i32,
            #[trigger] output.buffer[0][0][t][f],
        )
}

/// Performs the Conv1D operation on a rank-4 tensor with a single row, i.e.
/// input shape `(1, 1, TIMESTEPS, CHANS)`, with filters of shape
/// `(FILTERS, 1, KERNEL, CHANS)` and biases in accumulator units: `None`
/// where the operation is not defined.
///
/// Quantization is per-channel on the filters:
///
/// ```text
/// acc    = sum of (x - zp_x) * (w_f - zp_w_f)     over the kernel window
/// raw    = acc + bias_f
/// out    = activation(requantize(raw, m_f, zp_out))
/// m_f    = multiplier(scale_x, scale_w_f, scale_out)
/// ```
///
/// With `Same` padding the out-of-range positions contribute nothing to the
/// accumulator: they behave as if filled with `zp_x`.
///
/// `arithmetic` holds the operations on scales.
pub fn checked_conv_1d<
    T: Quantized,
    S: Copy,
    M: Copy,
    P: Fn(S, S, S) -> M,
    R: Fn(i32, M, T) -> T,
    X: Fn(S, T) -> T,
    const TIMESTEPS: usize,
    const CHANS: usize,
    const KERNEL: usize,
    const FILTERS: usize,
    const FILTERS_QUANTS: usize,
    const OUTPUT_TIMESTEPS: usize,
>(
    input: &Tensor4D<T, S, 1, 1, TIMESTEPS, CHANS, 1>,
    filters: &Tensor4D<T, S, FILTERS, 1, KERNEL, CHANS, FILTERS_QUANTS>,
    biases: &Tensor2D<i32, S, FILTERS, 1, FILTERS_QUANTS>,
    output_scale: [S; 1],
    output_zero_point: [T; 1],
    options: Conv1DOptions,
    arithmetic: &Arithmetic<P, R, X>,
) -> (r: Option<Tensor4D<T, S, 1, 1, OUTPUT_TIMESTEPS, FILTERS, 1>>)
    requires
        forall|f: int|
            0 <= f < FILTERS ==> call_requires(
                arithmetic.multiplier,
                (
                    input.scale[0],
                    #[trigger] quantize::per_channel(filters.scale@, f),
                    output_scale[0],
                ),
            ),
        forall|raw: i32, factor: M|
            call_requires(arithmetic.requantize, (raw, factor, output_zero_point[0])),
        options.fused_activation is Relu6 ==> call_requires(
            arithmetic.quantize_six,
            (output_scale[0], output_zero_point[0]),
        ),
    ensures
        r is Some <==> conv_1d_defined(
            *input,
            *filters,
            *biases,
            options,
            OUTPUT_TIMESTEPS as int,
        ),
        r matches Some(output) ==> is_convolution(
            output,
            *input,
            *filters,
            *biases,
            output_scale,
            output_zero_point,
            options,
            *arithmetic,
        ),
{
    let sums: [[i32; FILTERS]; OUTPUT_TIMESTEPS] = match checked_accumulators(
        input,
        filters,
        biases,
        options,
    ) {
        Some(sums) => sums,
        None => {
            return None;
        },
    };
    let zero_point = output_zero_point[0];
    let mut values: [[T; FILTERS]; OUTPUT_TIMESTEPS] = [[zero_point; FILTERS]; OUTPUT_TIMESTEPS];
    let mut f: usize = 0;
    #[verifier::loop_isolation(false)]
    while f < FILTERS
        invariant
            f <= FILTERS,
            forall|t: int, j: int|
                0 <= t < OUTPUT_TIMESTEPS && 0 <= j < f ==> requantized(
                    *arithmetic,
                    (
                        input.scale[0],
                        quantize::per_channel(filters.scale@, j),
                        output_scale[0],
                    ),
                    output_zero_point[0],
                    options.fused_activation,
                    sums[t][j],
                    #[trigger] values[t][j],
                ),
        decreases FILTERS - f,
    {
        let filter_scale = channel_parameter(&filters.scale, f);
        // The multiplier is computed once per filter.
        let factor = (arithmetic.multiplier)(input.scale[0], filter_scale, output_scale[0]);
        let mut t: usize = 0;
        #[verifier::loop_isolation(false)]
        while t < OUTPUT_TIMESTEPS
            invariant
                t <= OUTPUT_TIMESTEPS,
                forall|i: int, j: int|
                    (0 <= i < OUTPUT_TIMESTEPS && 0 <= j < f) || (0 <= i < t && j == f)
                        ==> requantized(
                        *arithmetic,
                        (
                            input.scale[0],
                            quantize::per_channel(filters.scale@, j),
                            output_scale[0],
                        ),
                        output_zero_point[0],
                        options.fused_activation,
                        sums[i][j],
                        #[trigger] values[i][j],
                    ),
            decreases OUTPUT_TIMESTEPS - t,
        {
            let value = (arithmetic.requantize)(sums[t][f], factor, zero_point);
            let output = activate(
                options.fused_activation,
                &arithmetic.quantize_six,
                output_scale[0],
                zero_point,
                value,
            );
            assert(call_ensures(arithmetic.requantize, (sums[t as int][f as int], factor, zero_point), value));
            assert(requantized(
                *arithmetic,
                (input.scale[0], quantize::per_channel(filters.scale@, f as int), output_scale[0]),
                output_zero_point[0],
                options.fused_activation,
                sums[t as int][f as int],
                output,
            ));
            values[t][f] = output;
            t += 1;
        }
        f += 1;
    }
    Some(Tensor4D::new([[values]], output_scale, output_zero_point))
}

/// Performs the Conv1D operation on a rank-4 tensor with a single row, as
/// [`checked_conv_1d`] does, where it is defined.
pub fn conv_1d<
    T: Quantized,
    S: Copy,
    M: Copy,
    P: Fn(S, S, S) -> M,
    R: Fn(i32, M, T) -> T,
    X: Fn(S, T) -> T,
    const TIMESTEPS: usize,
    const CHANS: usize,
    const KERNEL: usize,
    const FILTERS: usize,
    const FILTERS_QUANTS: usize,
    const OUTPUT_TIMESTEPS: usize,
>(
    input: Tensor4D<T, S, 1, 1, TIMESTEPS, CHANS, 1>,
    filters: &Tensor4D<T, S, FILTERS, 1, KERNEL, CHANS, FILTERS_QUANTS>,
    biases: &Tensor2D<i32, S, FILTERS, 1, FILTERS_QUANTS>,
    output_scale: [S; 1],
    output_zero_point: [T; 1],
    options: Conv1DOptions,
    arithmetic: &Arithmetic<P, R, X>,
) -> (output: Tensor4D<T, S, 1, 1, OUTPUT_TIMESTEPS, FILTERS, 1>)
    requires
        conv_1d_defined(input, *filters, *biases, options, OUTPUT_TIMESTEPS as int),
        forall|f: int|
            0 <= f < FILTERS ==> call_requires(
                arithmetic.multiplier,
                (
                    input.scale[0],
                    #[trigger] quantize::per_channel(filters.scale@, f),
                    output_scale[0],
                ),
            ),
        forall|raw: i32, factor: M|
            call_requires(arithmetic.requantize, (raw, factor, output_zero_point[0])),
        options.fused_activation is Relu6 ==> call_requires(
            arithmetic.quantize_six,
            (output_scale[0], output_zero_point[0]),
        ),
    ensures
        is_convolution(
            output,
            input,
            *filters,
            *biases,
            output_scale,
            output_zero_point,
            options,
            *arithmetic,
        ),
{
    checked_conv_1d(
        &input,
        filters,
        biases,
        output_scale,
        output_zero_point,
        options,
        arithmetic,
    ).unwrap()
}

} // verus!
