//! The convolution kernel, with single-precision scales.
use microflow::activation::{activate, relu, relu6, FusedActivation};
use microflow::ops::accumulate::accumulate;
use microflow::ops::conv_1d::{
    checked_accumulators, checked_conv_1d, conv_1d, output_len, same_pad_left, Arithmetic,
    Conv1DOptions,
};
use microflow::quantize::{channel_parameter, Quantized};
use microflow::tensor::{Tensor2D, Tensor4D, TensorViewPadding};

/// Round half to even.
fn round_ties_even(value: f32) -> f32 {
    let truncated = value.trunc();
    let fraction = value - truncated;
    let magnitude = fraction.abs();
    if magnitude < 0.5 {
        truncated
    } else if magnitude > 0.5 {
        truncated + fraction.signum()
    } else if (truncated / 2.0).trunc() * 2.0 == truncated {
        truncated
    } else {
        truncated + fraction.signum()
    }
}

fn multiplier(input: f32, filter: f32, output: f32) -> f32 {
    (input * filter) / output
}

fn requantize(raw: i32, factor: f32, zero_point: i8) -> i8 {
    (round_ties_even(raw as f32 * factor) + zero_point as f32) as i8
}

fn quantize_six(scale: f32, zero_point: i8) -> i8 {
    (round_ties_even(6.0 / scale) + zero_point as f32) as i8
}

/// Builds a `(1, 1, T, C)` input from a flat row-major slice.
fn input<const T: usize, const C: usize>(
    values: &[i8],
    scale: f32,
    zero_point: i8,
) -> Tensor4D<i8, f32, 1, 1, T, C, 1> {
    Tensor4D::new(
        [[core::array::from_fn(|t| core::array::from_fn(|c| values[t * C + c]))]],
        [scale],
        [zero_point],
    )
}

/// Builds `(F, 1, K, C)` filters from a filter-major flat slice.
fn filters<const F: usize, const K: usize, const C: usize, const Q: usize>(
    values: &[i8],
    scales: [f32; Q],
    zero_points: [i8; Q],
) -> Tensor4D<i8, f32, F, 1, K, C, Q> {
    Tensor4D::new(
        core::array::from_fn(|f| {
            [core::array::from_fn(|m| core::array::from_fn(|c| values[f * K * C + m * C + c]))]
        }),
        scales,
        zero_points,
    )
}

fn biases<const F: usize, const Q: usize>(values: &[i32]) -> Tensor2D<i32, f32, F, 1, Q> {
    Tensor2D::new(core::array::from_fn(|f| [values[f]]), [0.; Q], [0; Q])
}

/// Runs the kernel with the arithmetic above.
fn run<
    const T: usize,
    const C: usize,
    const K: usize,
    const F: usize,
    const Q: usize,
    const OUT: usize,
>(
    input: Tensor4D<i8, f32, 1, 1, T, C, 1>,
    filters: &Tensor4D<i8, f32, F, 1, K, C, Q>,
    biases: &Tensor2D<i32, f32, F, 1, Q>,
    output_scale: [f32; 1],
    output_zero_point: [i8; 1],
    options: Conv1DOptions,
) -> Tensor4D<i8, f32, 1, 1, OUT, F, 1> {
    conv_1d(
        input,
        filters,
        biases,
        output_scale,
        output_zero_point,
        options,
        &Arithmetic { multiplier, requantize, quantize_six },
    )
}

fn options(
    fused_activation: FusedActivation,
    padding: TensorViewPadding,
    stride: usize,
) -> Conv1DOptions {
    Conv1DOptions { fused_activation, padding, stride }
}

/// Identity requant: scale_x * scale_w = scale_out, all zero points zero.
#[test]
fn accumulator_dot_product() {
    // x = [1 2 3 4 5], w = [1 0 -1]: every valid window gives -2
    let output = run::<5, 1, 3, 1, 1, 3>(
        input::<5, 1>(&[1, 2, 3, 4, 5], 0.5, 0),
        &filters::<1, 3, 1, 1>(&[1, 0, -1], [0.5], [0]),
        &biases::<1, 1>(&[0]),
        [0.25],
        [0],
        options(FusedActivation::Linear, TensorViewPadding::Valid, 1),
    );
    assert_eq!(output.buffer[0][0][0][0], -2);
    assert_eq!(output.buffer[0][0][1][0], -2);
    assert_eq!(output.buffer[0][0][2][0], -2);
}

/// Full pipeline with non-trivial quantization, per-channel scales, biases,
/// and ties-to-even rounding cases (raw * m ends in .5).
#[test]
fn requant_per_channel_with_ties() {
    // x - zp_x = [5 15 25 35]
    // f0: w = [1 2], zp 0  -> acc = [35 65 95], + 7 -> raw = [42 72 102],
    //     m = 0.5 -> [21 36 51]
    // f1: w = [-1 1], zp 3 -> acc = [-50 -110 -170], - 8 -> raw = [-58 -118 -178],
    //     m = 0.25: raw * m = [-14.5 -29.5 -44.5] -> ties_even -> [-14 -30 -44]
    // out = round(raw * m) + zp_out, zp_out = -3
    let output = run::<4, 1, 2, 2, 2, 3>(
        input::<4, 1>(&[10, 20, 30, 40], 0.5, 5),
        &filters::<2, 2, 1, 2>(&[1, 2, -1, 1], [0.1, 0.05], [0, 3]),
        &biases::<2, 2>(&[7, -8]),
        [0.1],
        [-3],
        options(FusedActivation::Linear, TensorViewPadding::Valid, 1),
    );
    let expected = [[18i8, -17], [33, -33], [48, -47]];
    for (t, pair) in expected.iter().enumerate() {
        assert_eq!(output.buffer[0][0][t][0], pair[0], "t={t}, f=0");
        assert_eq!(output.buffer[0][0][t][1], pair[1], "t={t}, f=1");
    }
}

/// Fused ReLU clamps at the output zero point, in quantized coordinates.
#[test]
fn fused_relu_clamps_at_output_zero_point() {
    let output = run::<4, 1, 2, 2, 2, 3>(
        input::<4, 1>(&[10, 20, 30, 40], 0.5, 5),
        &filters::<2, 2, 1, 2>(&[1, 2, -1, 1], [0.1, 0.05], [0, 3]),
        &biases::<2, 2>(&[7, -8]),
        [0.1],
        [-3],
        options(FusedActivation::Relu, TensorViewPadding::Valid, 1),
    );
    for t in 0..3 {
        assert_eq!(output.buffer[0][0][t][0], (18 + 15 * t) as i8);
        assert_eq!(output.buffer[0][0][t][1], -3, "clipped to zp_out");
    }
}

#[test]
fn stride_two() {
    // Windows [x0 x1] and [x2 x3] with w = [1 1]
    let output = run::<5, 1, 2, 1, 1, 2>(
        input::<5, 1>(&[0, 1, 2, 3, 4], 1., 0),
        &filters::<1, 2, 1, 1>(&[1, 1], [1.], [0]),
        &biases::<1, 1>(&[0]),
        [1.],
        [0],
        options(FusedActivation::Linear, TensorViewPadding::Valid, 2),
    );
    assert_eq!(output.buffer[0][0][0][0], 1);
    assert_eq!(output.buffer[0][0][1][0], 5);
}

/// Same padding: pad_left = 1, both windows lose one out-of-range tap.
#[test]
fn same_padding_pads_left() {
    // T = 2 < k = 3: out = ceil(2/1) = 2, pad_total = 2, pad_left = 1
    let output = run::<2, 1, 3, 1, 1, 2>(
        input::<2, 1>(&[1, 2], 1., 0),
        &filters::<1, 3, 1, 1>(&[1, 1, 1], [1.], [0]),
        &biases::<1, 1>(&[0]),
        [1.],
        [0],
        options(FusedActivation::Linear, TensorViewPadding::Same, 1),
    );
    assert_eq!(output.buffer[0][0][0][0], 3);
    assert_eq!(output.buffer[0][0][1][0], 3);
}

/// Same padding with an odd total puts the extra tap on the right;
/// out-of-range positions are neutral regardless of zp_x.
#[test]
fn same_padding_extra_tap_on_the_right() {
    // T = 4, k = 3, stride = 2: out = 2, pad_total = 1, pad_left = 0
    let output = run::<4, 1, 3, 1, 1, 2>(
        input::<4, 1>(&[1, 2, 3, 4], 1., 0),
        &filters::<1, 3, 1, 1>(&[1, 1, 1], [1.], [0]),
        &biases::<1, 1>(&[0]),
        [1.],
        [0],
        options(FusedActivation::Linear, TensorViewPadding::Same, 2),
    );
    assert_eq!(output.buffer[0][0][0][0], 1 + 2 + 3);
    assert_eq!(output.buffer[0][0][1][0], 3 + 4);
    // Same input shifted through zp_x = 5: identical results, because
    // (zp_x - zp_x) * w contributes nothing
    let output = run::<4, 1, 3, 1, 1, 2>(
        input::<4, 1>(&[6, 7, 8, 9], 1., 5),
        &filters::<1, 3, 1, 1>(&[1, 1, 1], [1.], [0]),
        &biases::<1, 1>(&[0]),
        [1.],
        [0],
        options(FusedActivation::Linear, TensorViewPadding::Same, 2),
    );
    assert_eq!(output.buffer[0][0][0][0], 6);
    assert_eq!(output.buffer[0][0][1][0], 7);
}

/// Eight channels: the dot product spans the full channel axis.
#[test]
fn eight_channels() {
    // w = [1 0 0 0 0 0 0 -1]: out(t) = x[t,0] - x[t,7]
    let mut values = [0i8; 3 * 8];
    for t in 0..3 {
        for c in 0..8 {
            values[t * 8 + c] = if c == 7 { (1 + t) as i8 } else { (1 + c) as i8 };
        }
    }
    let output = run::<3, 8, 1, 1, 1, 3>(
        input::<3, 8>(&values, 1., 0),
        &filters::<1, 1, 8, 1>(&[1, 0, 0, 0, 0, 0, 0, -1], [1.], [0]),
        &biases::<1, 1>(&[0]),
        [1.],
        [0],
        options(FusedActivation::Linear, TensorViewPadding::Valid, 1),
    );
    assert_eq!(output.buffer[0][0][0][0], 0);
    assert_eq!(output.buffer[0][0][1][0], -1);
    assert_eq!(output.buffer[0][0][2][0], -2);
}

#[test]
fn geometry_helpers() {
    assert_eq!(output_len(5, 3, 1, TensorViewPadding::Valid), Some(3));
    assert_eq!(output_len(5, 3, 2, TensorViewPadding::Valid), Some(2));
    assert_eq!(output_len(2, 3, 1, TensorViewPadding::Valid), None);
    assert_eq!(output_len(2, 3, 1, TensorViewPadding::Same), Some(2));
    assert_eq!(output_len(4, 3, 2, TensorViewPadding::Same), Some(2));
    assert_eq!(same_pad_left(2, 1, 3, 2), 1);
    assert_eq!(same_pad_left(2, 2, 3, 4), 0);
    assert_eq!(same_pad_left(5, 1, 3, 5), 1);
}

/// The fused ReLU6 also clamps at the quantized six.
#[test]
fn fused_relu6_clamps_on_both_sides() {
    let output = run::<3, 1, 1, 1, 1, 3>(
        input::<3, 1>(&[-50, 10, 100], 1., 0),
        &filters::<1, 1, 1, 1>(&[1], [1.], [0]),
        &biases::<1, 1>(&[0]),
        [0.5],
        [-3],
        options(FusedActivation::Relu6, TensorViewPadding::Valid, 1),
    );
    // Six is 12 steps above the zero point.
    assert_eq!(output.buffer[0][0][0][0], -3);
    assert_eq!(output.buffer[0][0][1][0], 9);
    assert_eq!(output.buffer[0][0][2][0], 9);
    assert_eq!(output.scale, [0.5]);
    assert_eq!(output.zero_point, [-3]);
}

/// Unsigned elements: the sums before requantization.
#[test]
fn unsigned_accumulators() {
    let input: Tensor4D<u8, f32, 1, 1, 3, 2, 1> =
        Tensor4D::new([[[[200, 10], [128, 128], [0, 255]]]], [1.], [128]);
    let filters: Tensor4D<u8, f32, 1, 1, 2, 2, 1> =
        Tensor4D::new([[[[130, 127], [126, 128]]]], [1.], [128]);
    let biases: Tensor2D<i32, f32, 1, 1, 1> = Tensor2D::new([[1000]], [1.], [0]);
    let sums: [[i32; 1]; 2] = checked_accumulators(
        &input,
        &filters,
        &biases,
        options(FusedActivation::Linear, TensorViewPadding::Valid, 1),
    )
    .unwrap();
    // 72 * 2 + (-118) * (-1) + 0 + 0, and 0 + 0 + (-128) * (-2) + 127 * 0
    assert_eq!(sums, [[1262], [1256]]);
}

/// Out-of-range taps behave as samples at the zero point.
#[test]
fn padding_behaves_as_zero_point() {
    let filters = filters::<1, 3, 1, 1>(&[3, -7, 11], [1.], [2]);
    let biases = biases::<1, 1>(&[5]);
    let padded: [[i32; 1]; 4] = checked_accumulators(
        &input::<4, 1>(&[9, -9, 4, 100], 1., 6),
        &filters,
        &biases,
        options(FusedActivation::Linear, TensorViewPadding::Same, 1),
    )
    .unwrap();
    let explicit: [[i32; 1]; 4] = checked_accumulators(
        &input::<6, 1>(&[6, 9, -9, 4, 100, 6], 1., 6),
        &filters,
        &biases,
        options(FusedActivation::Linear, TensorViewPadding::Valid, 1),
    )
    .unwrap();
    assert_eq!(padded, explicit);
}

/// One zero point for all filters, or the same one for each.
#[test]
fn equal_channels_weigh_as_one() {
    let input = input::<3, 1>(&[1, 2, 3], 1., 0);
    let sums = |sums: Option<[[i32; 2]; 3]>| sums.unwrap();
    let opts = options(FusedActivation::Linear, TensorViewPadding::Valid, 1);
    assert_eq!(
        sums(checked_accumulators(
            &input,
            &filters::<2, 1, 1, 1>(&[4, 5], [1.], [3]),
            &biases::<2, 1>(&[0, 0]),
            opts,
        )),
        sums(checked_accumulators(
            &input,
            &filters::<2, 1, 1, 2>(&[4, 5], [1., 1.], [3, 3]),
            &biases::<2, 2>(&[0, 0]),
            opts,
        ))
    );
}

/// The operation is not defined on a wrong geometry, an overflow, or a
/// missing zero point.
#[test]
fn undefined_convolutions() {
    let valid = options(FusedActivation::Linear, TensorViewPadding::Valid, 1);
    let input3 = input::<3, 1>(&[1, 2, 3], 1., 0);
    let filter = filters::<1, 2, 1, 1>(&[1, 1], [1.], [0]);
    let arithmetic = Arithmetic { multiplier, requantize, quantize_six };
    let wrong: Option<Tensor4D<i8, f32, 1, 1, 3, 1, 1>> = checked_conv_1d(
        &input3,
        &filter,
        &biases::<1, 1>(&[0]),
        [1.],
        [0],
        valid,
        &arithmetic,
    );
    assert!(wrong.is_none(), "two windows, not three");
    let no_stride: Option<[[i32; 1]; 2]> = checked_accumulators(
        &input3,
        &filter,
        &biases::<1, 1>(&[0]),
        options(FusedActivation::Linear, TensorViewPadding::Valid, 0),
    );
    assert_eq!(no_stride, None);
    let overflow: Option<[[i32; 1]; 2]> =
        checked_accumulators(&input3, &filter, &biases::<1, 1>(&[i32::MAX]), valid);
    assert_eq!(overflow, None);
    let unquantized: Option<[[i32; 1]; 2]> = checked_accumulators(
        &input3,
        &filters::<1, 2, 1, 0>(&[1, 1], [], []),
        &biases::<1, 0>(&[0]),
        valid,
    );
    assert_eq!(unquantized, None);
    let empty: Option<[[i32; 1]; 0]> = checked_accumulators(
        &input::<0, 1>(&[], 1., 0),
        &filter,
        &biases::<1, 1>(&[0]),
        options(FusedActivation::Linear, TensorViewPadding::Same, 1),
    );
    assert_eq!(empty, None);
}

/// Windows of the two paddings, counted one by one.
#[test]
fn windows_are_counted() {
    for timesteps in 0..12usize {
        for kernel in 0..6usize {
            for stride in 1..5usize {
                let valid = (0..timesteps + 1)
                    .filter(|t| t * stride + kernel <= timesteps)
                    .count();
                assert_eq!(
                    output_len(timesteps, kernel, stride, TensorViewPadding::Valid),
                    if timesteps >= kernel { Some(valid) } else { None }
                );
                let same = (0..timesteps).filter(|t| t * stride < timesteps).count();
                assert_eq!(
                    output_len(timesteps, kernel, stride, TensorViewPadding::Same),
                    Some(same)
                );
                if timesteps > 0 && kernel > 0 {
                    let left = same_pad_left(same, stride, kernel, timesteps);
                    assert!(left < kernel);
                }
            }
        }
    }
}

#[test]
fn accumulates_until_it_overflows() {
    assert_eq!(accumulate(10, &[3i8, -4], 1, &[5, 6], 2), Some(10 + 2 * 3 - 5 * 4));
    assert_eq!(accumulate(i32::MAX, &[1u8], 0, &[1], 0), None);
    // The sum leaves the accumulator on the way, although it would return.
    assert_eq!(accumulate(i32::MAX, &[1i8, -1], 0, &[1, 1], 0), None);
    assert_eq!(accumulate(7, &[0i8; 0], 0, &[0; 0], 0), Some(7));
}

#[test]
fn element_values() {
    assert_eq!((-128i8).to_i32(), -128);
    assert_eq!(127i8.to_i32(), 127);
    assert_eq!(255u8.to_i32(), 255);
    assert_eq!(200u8.to_i32(), 200);
}

#[test]
fn parameters_of_channels() {
    assert_eq!(channel_parameter(&[4, 5, 6], 2), 6);
    assert_eq!(channel_parameter(&[4], 2), 4);
}

#[test]
fn activation_functions() {
    assert_eq!(relu(-5i8, 3), 3);
    assert_eq!(relu(5i8, 3), 5);
    assert_eq!(relu(relu(-5i8, 3), 3), 3);
    assert_eq!(relu6(200u8, 100, 3), 100);
    assert_eq!(relu6(1u8, 100, 3), 3);
    assert_eq!(relu6(50u8, 100, 3), 50);
    let six = |scale: i32, zero_point: i8| (6 / scale) as i8 + zero_point;
    assert_eq!(activate(FusedActivation::Linear, &six, 2, 1, -9i8), -9);
    assert_eq!(activate(FusedActivation::Relu, &six, 2, 1, -9i8), 1);
    assert_eq!(activate(FusedActivation::Relu6, &six, 2, 1, 9i8), 4);
}

/// Extreme values stay far inside the accumulator.
#[test]
fn small_layers_never_overflow() {
    let sums: [[i32; 1]; 1] = checked_accumulators(
        &input::<4, 8>(&[-128; 32], 1., 127),
        &filters::<1, 4, 8, 1>(&[-128; 32], [1.], [127]),
        &biases::<1, 1>(&[-5]),
        options(FusedActivation::Linear, TensorViewPadding::Valid, 1),
    )
    .unwrap();
    assert_eq!(sums, [[32 * 65025 - 5]]);
}

/// The same input yields the same output every time.
#[test]
fn outputs_are_determined() {
    let once = || {
        run::<4, 1, 2, 2, 2, 3>(
            input::<4, 1>(&[10, 20, 30, 40], 0.5, 5),
            &filters::<2, 2, 1, 2>(&[1, 2, -1, 1], [0.1, 0.05], [0, 3]),
            &biases::<2, 2>(&[7, -8]),
            [0.1],
            [-3],
            options(FusedActivation::Relu6, TensorViewPadding::Valid, 1),
        )
    };
    assert_eq!(once(), once());
}

/// The result with a ReLU is the maximum of the plain one and the zero point.
#[test]
fn fused_relu_is_the_maximum() {
    let result = |function: FusedActivation| {
        run::<4, 1, 2, 2, 2, 3>(
            input::<4, 1>(&[10, 20, 30, 40], 0.5, 5),
            &filters::<2, 2, 1, 2>(&[1, 2, -1, 1], [0.1, 0.05], [0, 3]),
            &biases::<2, 2>(&[7, -8]),
            [0.1],
            [-3],
            options(function, TensorViewPadding::Valid, 1),
        )
    };
    let plain = result(FusedActivation::Linear);
    let clamped = result(FusedActivation::Relu);
    for t in 0..3 {
        for f in 0..2 {
            assert_eq!(
                clamped.buffer[0][0][t][f],
                plain.buffer[0][0][t][f].max(-3)
            );
        }
    }
}

/// Moving the samples with their zero point changes no output.
#[test]
fn shifted_input_gives_the_same_output() {
    for padding in [TensorViewPadding::Same, TensorViewPadding::Valid] {
        let result = |shift: i8| -> Option<Tensor4D<i8, f32, 1, 1, 2, 1, 1>> {
            checked_conv_1d(
                &input::<4, 1>(&[1 + shift, 9 + shift, shift - 3, 4 + shift], 0.5, 2 + shift),
                &filters::<1, 3, 1, 1>(&[3, -7, 11], [0.5], [1]),
                &biases::<1, 1>(&[4]),
                [0.5],
                [-3],
                options(
                    FusedActivation::Relu6,
                    padding,
                    if padding == TensorViewPadding::Same { 2 } else { 1 },
                ),
                &Arithmetic { multiplier, requantize, quantize_six },
            )
        };
        assert!(result(0).is_some());
        assert_eq!(result(0), result(17));
        assert_eq!(result(0), result(-100));
    }
}
