//! The convolution as a formula over the elements of its tensors.
use crate::activation;
use crate::ops::accumulate;
use crate::ops::accumulate_laws;
use crate::ops::conv_1d;
use crate::ops::conv_1d::{Arithmetic, Conv1DOptions};
use crate::ops::conv_1d_laws;
use crate::quantize::Quantized;
use crate::sums;
use crate::tensor::{Tensor2D, Tensor4D, TensorViewPadding};
use vstd::prelude::*;

verus! {

/// The timestep that tap `m` of window `t` reads: windows are a stride apart,
/// and with `Same` padding half of the samples that the windows need beyond
/// the input, rounded down, lie before it.
pub open spec fn timestep(
    options: Conv1DOptions,
    windows: int,
    kernel: int,
    timesteps: int,
    t: int,
    m: int,
) -> int {
    let beyond = (windows - 1) * options.stride + kernel - timesteps;
    if options.padding is Same && beyond > 0 {
        t * options.stride - beyond / 2 + m
    } else {
        t * options.stride + m
    }
}

/// The product of the sample at timestep `p` with the weight of tap `m` of
/// filter `f` on channel `c`, each less its zero point.
pub open spec fn tap<
    T: Quantized,
    S,
    const TIMESTEPS: usize,
    const CHANS: usize,
    const KERNEL: usize,
    const FILTERS: usize,
    const FILTERS_QUANTS: usize,
>(
    input: Tensor4D<T, S, 1, 1, TIMESTEPS, CHANS, 1>,
    filters: Tensor4D<T, S, FILTERS, 1, KERNEL, CHANS, FILTERS_QUANTS>,
    p: int,
    f: int,
    m: int,
    c: int,
) -> int {
    let filter_zero_point = if f < FILTERS_QUANTS {
        filters.zero_point[f]
    } else {
        filters.zero_point[0]
    };
    (input.buffer[0][0][p][c].value() - input.zero_point[0].value()) * (
    filters.buffer[f][0][m][c].value() - filter_zero_point.value())
}

/// The sum of the products of tap `m` of window `t` over the first `n`
/// channels; nothing where the tap reads beyond the input.
pub open spec fn tap_sum<
    T: Quantized,
    S,
    const TIMESTEPS: usize,
    const CHANS: usize,
    const KERNEL: usize,
    const FILTERS: usize,
    const FILTERS_QUANTS: usize,
>(
    input: Tensor4D<T, S, 1, 1, TIMESTEPS, CHANS, 1>,
    filters: Tensor4D<T, S, FILTERS, 1, KERNEL, CHANS, FILTERS_QUANTS>,
    options: Conv1DOptions,
    windows: int,
    t: int,
    f: int,
    m: int,
    n: nat,
) -> int {
    let p = timestep(options, windows, KERNEL as int, TIMESTEPS as int, t, m);
    if 0 <= p < TIMESTEPS {
        sums::summed(|c: int| tap(input, filters, p, f, m, c), n)
    } else {
        0
    }
}

/// The sum of the first `taps` taps of window `t` with filter `f`.
pub open spec fn taps_sum<
    T: Quantized,
    S,
    const TIMESTEPS: usize,
    const CHANS: usize,
    const KERNEL: usize,
    const FILTERS: usize,
    const FILTERS_QUANTS: usize,
>(
    input: Tensor4D<T, S, 1, 1, TIMESTEPS, CHANS, 1>,
    filters: Tensor4D<T, S, FILTERS, 1, KERNEL, CHANS, FILTERS_QUANTS>,
    options: Conv1DOptions,
    windows: int,
    t: int,
    f: int,
    taps: nat,
) -> int {
    sums::summed(
        |m: int| tap_sum(input, filters, options, windows, t, f, m, CHANS as nat),
        taps,
    )
}

/// The position of a tap, as the kernel computes it.
proof fn lemma_timestep(
    options: Conv1DOptions,
    windows: int,
    kernel: int,
    timesteps: int,
    t: int,
    m: int,
)
    ensures
        conv_1d::window_start(options, windows, kernel, timesteps, t) + m == timestep(
            options,
            windows,
            kernel,
            timesteps,
            t,
            m,
        ),
{
}

/// The products of one tap, as the kernel adds them.
proof fn lemma_tap_sum<
    T: Quantized,
    S,
    const TIMESTEPS: usize,
    const CHANS: usize,
    const KERNEL: usize,
    const FILTERS: usize,
    const FILTERS_QUANTS: usize,
>(
    input: Tensor4D<T, S, 1, 1, TIMESTEPS, CHANS, 1>,
    filters: Tensor4D<T, S, FILTERS, 1, KERNEL, CHANS, FILTERS_QUANTS>,
    p: int,
    f: int,
    m: int,
    n: nat,
)
    requires
        0 <= p < TIMESTEPS,
        0 <= m < KERNEL,
        0 <= f,
        n <= CHANS,
    ensures
        accumulate::dot(
            conv_1d::samples(input)[p],
            conv_1d::weights(filters, f)[m],
            n,
        ) == sums::summed(|c: int| tap(input, filters, p, f, m, c), n),
{
    let x = conv_1d::samples(input)[p];
    let w = conv_1d::weights(filters, f)[m];
    accumulate_laws::law_dot_is_the_sum_of_products(x, w, n);
    let a = |c: int| x[c] * w[c];
    let b = |c: int| tap(input, filters, p, f, m, c);
    assert forall|c: int| 0 <= c < n implies #[trigger] a(c) == b(c) by {}
    sums::lemma_same_sum(a, b, n);
}

/// The sum of the first taps of a window, as the kernel adds them.
proof fn lemma_taps_sum<
    T: Quantized,
    S,
    const TIMESTEPS: usize,
    const CHANS: usize,
    const KERNEL: usize,
    const FILTERS: usize,
    const FILTERS_QUANTS: usize,
>(
    input: Tensor4D<T, S, 1, 1, TIMESTEPS, CHANS, 1>,
    filters: Tensor4D<T, S, FILTERS, 1, KERNEL, CHANS, FILTERS_QUANTS>,
    options: Conv1DOptions,
    windows: int,
    t: int,
    f: int,
    taps: nat,
)
    requires
        0 <= f,
        taps <= KERNEL,
    ensures
        conv_1d::window_sum(
            conv_1d::samples(input),
            conv_1d::weights(filters, f),
            conv_1d::window_start(options, windows, KERNEL as int, TIMESTEPS as int, t),
            CHANS as nat,
            taps,
        ) == taps_sum(input, filters, options, windows, t, f, taps),
    decreases taps,
{
    if taps > 0 {
        let m = taps - 1;
        lemma_taps_sum(input, filters, options, windows, t, f, m as nat);
        lemma_timestep(options, windows, KERNEL as int, TIMESTEPS as int, t, m);
        let p = timestep(options, windows, KERNEL as int, TIMESTEPS as int, t, m);
        if 0 <= p < TIMESTEPS {
            lemma_tap_sum(input, filters, p, f, m, CHANS as nat);
        }
    }
}

/// The accumulator of window `t` and filter `f` is the sum, over every tap
/// `m` whose timestep lies in the input and every channel `c`, of
/// `(x[p][c] - zp_x) * (w_f[m][c] - zp_w_f)`.
pub proof fn law_accumulator_is_the_sum_over_taps_and_channels<
    T: Quantized,
    S,
    const TIMESTEPS: usize,
    const CHANS: usize,
    const KERNEL: usize,
    const FILTERS: usize,
    const FILTERS_QUANTS: usize,
>(
    input: Tensor4D<T, S, 1, 1, TIMESTEPS, CHANS, 1>,
    filters: Tensor4D<T, S, FILTERS, 1, KERNEL, CHANS, FILTERS_QUANTS>,
    options: Conv1DOptions,
    windows: int,
    t: int,
    f: int,
)
    requires
        0 <= f < FILTERS,
    ensures
        conv_1d::accumulator(input, filters, options, windows, t, f) == taps_sum(
            input,
            filters,
            options,
            windows,
            t,
            f,
            KERNEL as nat,
        ),
{
    lemma_taps_sum(input, filters, options, windows, t, f, KERNEL as nat);
}

/// Raising a single weight by one raises the accumulators of its filter by
/// the centered sample that its tap reads, and those of every other filter
/// not at all.
pub proof fn law_each_weight_counts_by_its_sample<
    T: Quantized,
    S,
    const TIMESTEPS: usize,
    const CHANS: usize,
    const KERNEL: usize,
    const FILTERS: usize,
    const FILTERS_QUANTS: usize,
>(
    input: Tensor4D<T, S, 1, 1, TIMESTEPS, CHANS, 1>,
    filters: Tensor4D<T, S, FILTERS, 1, KERNEL, CHANS, FILTERS_QUANTS>,
    raised: Tensor4D<T, S, FILTERS, 1, KERNEL, CHANS, FILTERS_QUANTS>,
    options: Conv1DOptions,
    windows: int,
    t: int,
    f: int,
    at_f: int,
    at_m: int,
    at_c: int,
)
    requires
        0 <= f < FILTERS,
        0 <= at_m < KERNEL,
        0 <= at_c < CHANS,
        raised.zero_point == filters.zero_point,
        forall|m: int, c: int|
            0 <= m < KERNEL && 0 <= c < CHANS ==> #[trigger] raised.buffer[f][0][m][c].value()
                == filters.buffer[f][0][m][c].value() + (if f == at_f && m == at_m && c == at_c {
                1int
            } else {
                0
            }),
    ensures
        ({
            let p = timestep(options, windows, KERNEL as int, TIMESTEPS as int, t, at_m);
            conv_1d::accumulator(input, raised, options, windows, t, f) == conv_1d::accumulator(
                input,
                filters,
                options,
                windows,
                t,
                f,
            ) + (if f == at_f && 0 <= p < TIMESTEPS {
                input.buffer[0][0][p][at_c].value() - input.zero_point[0].value()
            } else {
                0
            })
        }),
{
    law_accumulator_is_the_sum_over_taps_and_channels(input, filters, options, windows, t, f);
    law_accumulator_is_the_sum_over_taps_and_channels(input, raised, options, windows, t, f);
    let chans = CHANS as nat;
    let q = timestep(options, windows, KERNEL as int, TIMESTEPS as int, t, at_m);
    let sample = if f == at_f && 0 <= q < TIMESTEPS {
        input.buffer[0][0][q][at_c].value() - input.zero_point[0].value()
    } else {
        0
    };
    let a = |m: int| tap_sum(input, filters, options, windows, t, f, m, chans);
    let b = |m: int| tap_sum(input, raised, options, windows, t, f, m, chans);
    assert forall|m: int| 0 <= m < KERNEL implies #[trigger] b(m) == a(m) + (if m == at_m {
        sample
    } else {
        0
    }) by {
        let p = timestep(options, windows, KERNEL as int, TIMESTEPS as int, t, m);
        if 0 <= p < TIMESTEPS {
            let x = |c: int| tap(input, filters, p, f, m, c);
            let y = |c: int| tap(input, raised, p, f, m, c);
            let by = if m == at_m {
                sample
            } else {
                0
            };
            assert forall|c: int| 0 <= c < chans implies #[trigger] y(c) == x(c) + (if c == at_c {
                by
            } else {
                0
            }) by {
                let v = input.buffer[0][0][p][c].value() - input.zero_point[0].value();
                let w = raised.buffer[f][0][m][c].value();
                let u = filters.buffer[f][0][m][c].value();
                let z = (if f < FILTERS_QUANTS {
                    filters.zero_point[f]
                } else {
                    filters.zero_point[0]
                }).value();
                if w == u + 1 {
                    assert(v * (w - z) == v * (u - z) + v) by (nonlinear_arith)
                        requires
                            w == u + 1,
                    ;
                }
            }
            sums::lemma_raised_sum(x, y, chans, at_c, by);
        }
    }
    sums::lemma_raised_sum(a, b, KERNEL as nat, at_m, sample);
}

/// Whether `windows` windows a stride apart are those of the padding: with
/// `Valid` the last one still fits inside the input and one more would not;
/// with `Same` the last one starts inside the input and one more would not,
/// there is at least one, and their extent can be held.
pub open spec fn is_geometry(
    options: Conv1DOptions,
    windows: int,
    kernel: int,
    timesteps: int,
) -> bool {
    let stride = options.stride as int;
    &&& stride > 0
    &&& windows >= 1
    &&& match options.padding {
        TensorViewPadding::Valid => (windows - 1) * stride + kernel <= timesteps < windows * stride
            + kernel,
        TensorViewPadding::Same => {
            &&& (windows - 1) * stride < timesteps <= windows * stride
            &&& (windows - 1) * stride + kernel <= isize::MAX
        },
    }
}

/// The geometry of a convolution is the one of its padding.
pub proof fn law_geometry(options: Conv1DOptions, windows: int, kernel: int, timesteps: int)
    requires
        0 <= windows <= usize::MAX,
        0 <= kernel,
        0 <= timesteps,
    ensures
        conv_1d::geometry_defined(options, windows, kernel, timesteps) <==> is_geometry(
            options,
            windows,
            kernel,
            timesteps,
        ),
{
    let stride = options.stride as int;
    if stride > 0 {
        match options.padding {
            TensorViewPadding::Valid => {
                if timesteps >= kernel {
                    conv_1d_laws::law_valid_count(timesteps, kernel, stride, windows);
                    if windows >= 1 {
                        conv_1d_laws::law_valid_count(timesteps, kernel, stride, windows - 1);
                    }
                    conv_1d_laws::law_valid_output_is_never_empty(timesteps, kernel, stride);
                } else if windows >= 1 {
                    assert((windows - 1) * stride >= 0) by (nonlinear_arith)
                        requires
                            windows >= 1,
                            stride > 0,
                    ;
                }
            },
            TensorViewPadding::Same => {
                conv_1d_laws::law_same_count(timesteps, kernel, stride, windows);
                if windows >= 1 {
                    conv_1d_laws::law_same_count(timesteps, kernel, stride, windows - 1);
                }
            },
        }
    }
}

/// Whether the sum of window `t` with filter `f` can be held at every
/// addition, and with the bias.
pub open spec fn sum_can_be_held<
    T: Quantized,
    S,
    const TIMESTEPS: usize,
    const CHANS: usize,
    const KERNEL: usize,
    const FILTERS: usize,
    const FILTERS_QUANTS: usize,
>(
    input: Tensor4D<T, S, 1, 1, TIMESTEPS, CHANS, 1>,
    filters: Tensor4D<T, S, FILTERS, 1, KERNEL, CHANS, FILTERS_QUANTS>,
    biases: Tensor2D<i32, S, FILTERS, 1, FILTERS_QUANTS>,
    options: Conv1DOptions,
    windows: int,
    t: int,
    f: int,
) -> bool {
    &&& forall|m: int, n: nat|
        0 <= m < KERNEL && n <= CHANS ==> i32::MIN <= taps_sum(
            input,
            filters,
            options,
            windows,
            t,
            f,
            m as nat,
        ) + #[trigger] tap_sum(input, filters, options, windows, t, f, m, n) <= i32::MAX
    &&& i32::MIN <= taps_sum(input, filters, options, windows, t, f, KERNEL as nat)
        + biases.buffer[f][0] <= i32::MAX
}

/// The sums before each tap can be held where every addition can.
proof fn lemma_sum_can_be_held<
    T: Quantized,
    S,
    const TIMESTEPS: usize,
    const CHANS: usize,
    const KERNEL: usize,
    const FILTERS: usize,
    const FILTERS_QUANTS: usize,
>(
    input: Tensor4D<T, S, 1, 1, TIMESTEPS, CHANS, 1>,
    filters: Tensor4D<T, S, FILTERS, 1, KERNEL, CHANS, FILTERS_QUANTS>,
    biases: Tensor2D<i32, S, FILTERS, 1, FILTERS_QUANTS>,
    options: Conv1DOptions,
    windows: int,
    t: int,
    f: int,
)
    requires
        0 <= f < FILTERS,
    ensures
        conv_1d::raw_fits(input, filters, biases, options, windows, t, f) <==> sum_can_be_held(
            input,
            filters,
            biases,
            options,
            windows,
            t,
            f,
        ),
{
    let x = conv_1d::samples(input);
    let w = conv_1d::weights(filters, f);
    let start = conv_1d::window_start(options, windows, KERNEL as int, TIMESTEPS as int, t);
    let chans = CHANS as nat;
    let taps = KERNEL as nat;
    lemma_taps_sum(input, filters, options, windows, t, f, taps);
    if conv_1d::raw_fits(input, filters, biases, options, windows, t, f) {
        assert forall|m: int, n: nat| 0 <= m < KERNEL && n <= CHANS implies i32::MIN <= taps_sum(
            input,
            filters,
            options,
            windows,
            t,
            f,
            m as nat,
        ) + #[trigger] tap_sum(input, filters, options, windows, t, f, m, n) <= i32::MAX by {
            lemma_window_in_range(x, w, start, chans, taps, m as nat);
            lemma_taps_sum(input, filters, options, windows, t, f, m as nat);
            lemma_timestep(options, windows, KERNEL as int, TIMESTEPS as int, t, m);
            let p = timestep(options, windows, KERNEL as int, TIMESTEPS as int, t, m);
            if 0 <= p < TIMESTEPS {
                assert(conv_1d::tap_fits(x, w, start, chans, m));
                lemma_tap_sum(input, filters, p, f, m, n);
                assert(accumulate::fits(
                    conv_1d::window_sum(x, w, start, chans, m as nat) + accumulate::dot(
                        x[p],
                        w[m],
                        n,
                    ),
                ));
            }
        }
    }
    if sum_can_be_held(input, filters, biases, options, windows, t, f) {
        assert forall|m: int| 0 <= m < taps implies #[trigger] conv_1d::tap_fits(
            x,
            w,
            start,
            chans,
            m,
        ) by {
            lemma_taps_sum(input, filters, options, windows, t, f, m as nat);
            lemma_timestep(options, windows, KERNEL as int, TIMESTEPS as int, t, m);
            let p = timestep(options, windows, KERNEL as int, TIMESTEPS as int, t, m);
            if 0 <= p < TIMESTEPS {
                assert forall|n: nat| n <= chans implies accumulate::fits(
                    conv_1d::window_sum(x, w, start, chans, m as nat)
                        + #[trigger] accumulate::dot(x[p], w[m], n),
                ) by {
                    lemma_tap_sum(input, filters, p, f, m, n);
                    let partial = tap_sum(input, filters, options, windows, t, f, m, n);
                }
            }
        }
    }
}

/// The sum of the first taps of a window that fits lies in range.
proof fn lemma_window_in_range(
    input: Seq<Seq<int>>,
    filter: Seq<Seq<int>>,
    start: int,
    chans: nat,
    taps: nat,
    m: nat,
)
    requires
        conv_1d::window_fits(input, filter, start, chans, taps),
        m <= taps,
    ensures
        accumulate::fits(conv_1d::window_sum(input, filter, start, chans, m)),
    decreases m,
{
    if m > 0 {
        lemma_window_in_range(input, filter, start, chans, taps, (m - 1) as nat);
        assert(conv_1d::tap_fits(input, filter, start, chans, m - 1));
        if 0 <= start + (m - 1) < input.len() {
            assert(accumulate::fits(
                conv_1d::window_sum(input, filter, start, chans, (m - 1) as nat)
                    + accumulate::dot(input[start + (m - 1)], filter[m - 1], chans),
            ));
        }
    }
}

/// A convolution is defined exactly where its windows are those of the
/// padding, every filter has a zero point, and every sum can be held at every
/// addition.
pub proof fn law_defined_where_the_sums_can_be_held<
    T: Quantized,
    S,
    const TIMESTEPS: usize,
    const CHANS: usize,
    const KERNEL: usize,
    const FILTERS: usize,
    const FILTERS_QUANTS: usize,
>(
    input: Tensor4D<T, S, 1, 1, TIMESTEPS, CHANS, 1>,
    filters: Tensor4D<T, S, FILTERS, 1, KERNEL, CHANS, FILTERS_QUANTS>,
    biases: Tensor2D<i32, S, FILTERS, 1, FILTERS_QUANTS>,
    options: Conv1DOptions,
    windows: int,
)
    requires
        0 <= windows <= usize::MAX,
    ensures
        conv_1d::conv_1d_defined(input, filters, biases, options, windows) <==> {
            &&& is_geometry(options, windows, KERNEL as int, TIMESTEPS as int)
            &&& FILTERS == 0 || FILTERS_QUANTS > 0
            &&& forall|t: int, f: int|
                0 <= t < windows && 0 <= f < FILTERS ==> #[trigger] sum_can_be_held(
                    input,
                    filters,
                    biases,
                    options,
                    windows,
                    t,
                    f,
                )
        },
{
    law_geometry(options, windows, KERNEL as int, TIMESTEPS as int);
    assert forall|t: int, f: int| 0 <= t < windows && 0 <= f < FILTERS implies (
    #[trigger] sum_can_be_held(input, filters, biases, options, windows, t, f)
        == conv_1d::raw_fits(input, filters, biases, options, windows, t, f)) by {
        lemma_sum_can_be_held(input, filters, biases, options, windows, t, f);
    }
    if forall|t: int, f: int|
        0 <= t < windows && 0 <= f < FILTERS ==> #[trigger] sum_can_be_held(
            input,
            filters,
            biases,
            options,
            windows,
            t,
            f,
        ) {
        assert forall|t: int, f: int|
            0 <= t < windows && 0 <= f < FILTERS implies #[trigger] conv_1d::raw_fits(
            input,
            filters,
            biases,
            options,
            windows,
            t,
            f,
        ) by {
            assert(sum_can_be_held(input, filters, biases, options, windows, t, f));
        }
    }
}

/// An output at timestep `t` of filter `f` is the requantized sum of its
/// window and the bias of its filter, by the multiplier of the scales of the
/// input, of that filter and of the output, after the activation function.
/// The output has the given scale and zero point.
pub proof fn law_output_is_the_formula<
    T: Quantized,
    S,
    M,
    P: Fn(S, S, S) -> M,
    R: Fn(i32, M, T) -> T,
    X: Fn(S, T) -> T,
    const TIMESTEPS: usize,
    const CHANS: usize,
    const KERNEL: usize,
    const FILTERS: usize,
    const FILTERS_QUANTS: usize,
    const OUTPUT_TIMESTEPS: usize,
>(
    output: Tensor4D<T, S, 1, 1, OUTPUT_TIMESTEPS, FILTERS, 1>,
    input: Tensor4D<T, S, 1, 1, TIMESTEPS, CHANS, 1>,
    filters: Tensor4D<T, S, FILTERS, 1, KERNEL, CHANS, FILTERS_QUANTS>,
    biases: Tensor2D<i32, S, FILTERS, 1, FILTERS_QUANTS>,
    output_scale: [S; 1],
    output_zero_point: [T; 1],
    options: Conv1DOptions,
    arithmetic: Arithmetic<P, R, X>,
    t: int,
    f: int,
)
    requires
        conv_1d::is_convolution(
            output,
            input,
            filters,
            biases,
            output_scale,
            output_zero_point,
            options,
            arithmetic,
        ),
        0 <= t < OUTPUT_TIMESTEPS,
        0 <= f < FILTERS,
    ensures
        output.scale == output_scale,
        output.zero_point == output_zero_point,
        ({
            let filter_scale = if f < FILTERS_QUANTS {
                filters.scale[f]
            } else {
                filters.scale[0]
            };
            let zero_point = output_zero_point[0];
            let raw = (taps_sum(
                input,
                filters,
                options,
                OUTPUT_TIMESTEPS as int,
                t,
                f,
                KERNEL as nat,
            ) + biases.buffer[f][0]) as i32;
            let element = output.buffer[0][0][t][f];
            exists|factor: M, value: T|
                {
                    &&& call_ensures(
                        arithmetic.multiplier,
                        (input.scale[0], filter_scale, output_scale[0]),
                        factor,
                    )
                    &&& #[trigger] call_ensures(
                        arithmetic.requantize,
                        (raw, factor, zero_point),
                        value,
                    )
                    &&& options.fused_activation is Linear ==> element == value
                    &&& options.fused_activation is Relu ==> {
                        &&& element.value() >= zero_point.value()
                        &&& element.value() >= value.value()
                        &&& element == value || element == zero_point
                    }
                    &&& options.fused_activation is Relu6 ==> exists|six: T|
                        {
                            &&& #[trigger] call_ensures(
                                arithmetic.quantize_six,
                                (output_scale[0], zero_point),
                                six,
                            )
                            &&& element.value() <= six.value()
                            &&& element == value || element == zero_point || element == six
                            &&& value.value() <= element.value() || element == six
                            &&& zero_point.value() <= element.value() || element == six
                            &&& element.value() <= value.value() || element.value()
                                <= zero_point.value()
                        }
                }
        }),
{
    let windows = OUTPUT_TIMESTEPS as int;
    law_accumulator_is_the_sum_over_taps_and_channels(input, filters, options, windows, t, f);
    let filter_scale = if f < FILTERS_QUANTS {
        filters.scale[f]
    } else {
        filters.scale[0]
    };
    let zero_point = output_zero_point[0];
    let raw = (taps_sum(input, filters, options, windows, t, f, KERNEL as nat)
        + biases.buffer[f][0]) as i32;
    let element = output.buffer[0][0][t][f];
    let scales = (input.scale[0], filter_scale, output_scale[0]);
    assert(conv_1d::requantized(
        arithmetic,
        scales,
        zero_point,
        options.fused_activation,
        raw,
        element,
    ));
    let (factor, value) = choose|factor: M, value: T|
        {
            &&& call_ensures(arithmetic.multiplier, scales, factor)
            &&& #[trigger] call_ensures(arithmetic.requantize, (raw, factor, zero_point), value)
            &&& activation::activated(
                options.fused_activation,
                arithmetic.quantize_six,
                scales.2,
                zero_point,
                value,
                element,
            )
        };
    activation::law_activation_values(
        options.fused_activation,
        arithmetic.quantize_six,
        output_scale[0],
        zero_point,
        value,
        element,
    );
    assert(call_ensures(arithmetic.requantize, (raw, factor, zero_point), value));
}

/// The windows of a geometry can be counted where there is a stride, unless
/// the kernel does not fit, in which case there is nothing to count. There is
/// no number of windows exactly where a `Valid` kernel does not fit. Otherwise
/// it is the largest number of windows that fit, or with `Same` padding that
/// start inside the input.
pub proof fn law_windows_are_counted(
    timesteps: usize,
    kernel: usize,
    stride: usize,
    padding: TensorViewPadding,
)
    ensures
        ({
            let count = conv_1d::window_count(
                timesteps as int,
                kernel as int,
                stride as int,
                padding,
            );
            &&& count is None <==> padding is Valid && timesteps < kernel
            &&& conv_1d::window_count_defined(
                timesteps as int,
                kernel as int,
                stride as int,
                padding,
            ) <==> {
                ||| padding is Valid && timesteps < kernel
                ||| stride > 0 && (padding is Same || kernel > 0 || stride > 1 || timesteps
                    < usize::MAX)
            }
            &&& count is Some && stride > 0 && padding is Valid ==> {
                &&& count->Some_0 >= 1
                &&& (count->Some_0 - 1) * stride + kernel <= timesteps
                &&& count->Some_0 * stride + kernel > timesteps
            }
            &&& stride > 0 && padding is Same ==> {
                &&& count->Some_0 >= 0
                &&& count->Some_0 * stride >= timesteps
                &&& count->Some_0 > 0 ==> (count->Some_0 - 1) * stride < timesteps
            }
        }),
{
    let (len, taps, step) = (timesteps as int, kernel as int, stride as int);
    if stride > 0 {
        if padding is Same {
            conv_1d::lemma_strides_over(len, step);
            let n = conv_1d::strides_over(len, step);
            assert(len / step >= 0) by (nonlinear_arith)
                requires
                    len >= 0,
                    step > 0,
            ;
            conv_1d_laws::law_same_count(len, taps, step, n);
            if n > 0 {
                conv_1d_laws::law_same_count(len, taps, step, n - 1);
            }
        } else if timesteps >= kernel {
            let q = (len - taps) / step;
            assert(0 <= q <= len - taps && (step > 1 && len - taps > 0 ==> q < len - taps))
                by (nonlinear_arith)
                requires
                    len >= taps,
                    step > 0,
                    q == (len - taps) / step,
            ;
            if step == 1 {
                assert(q == len - taps) by (nonlinear_arith)
                    requires
                        q == (len - taps) / step,
                        step == 1,
                ;
            }
            conv_1d_laws::law_valid_count(len, taps, step, q + 1);
            conv_1d_laws::law_valid_count(len, taps, step, q);
        }
    }
}

/// The total padding is what the windows need beyond the input, and nothing
/// where they need nothing.
pub proof fn law_padding_covers_what_is_missing(
    windows: int,
    stride: int,
    kernel: int,
    timesteps: int,
)
    ensures
        ({
            let total = conv_1d::pad_total(windows, stride, kernel, timesteps);
            &&& total >= 0
            &&& timesteps + total >= (windows - 1) * stride + kernel
            &&& total > 0 ==> timesteps + total == (windows - 1) * stride + kernel
            &&& conv_1d::span(windows, stride, kernel) == (windows - 1) * stride + kernel
        }),
{
}

} // verus!
