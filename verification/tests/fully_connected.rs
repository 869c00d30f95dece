//! The fully connected kernel, with single-precision scales.
use microflow::activation::FusedActivation;
use microflow::ops::fully_connected::{
    checked_accumulators, checked_fully_connected, fully_connected, FullyConnectedOptions,
};
use microflow::tensor::Tensor2D;

const INPUT: Tensor2D<i8, f32, 2, 3, 1> = Tensor2D {
    buffer: [[1, 2, 3], [4, 5, 6]],
    scale: [0.7],
    zero_point: [8],
};
const WEIGHTS: Tensor2D<i8, f32, 3, 4, 1> = Tensor2D {
    buffer: [[9, 10, 11, 12], [13, 14, 15, 16], [17, 18, 19, 20]],
    scale: [0.21],
    zero_point: [22],
};
// Same weights, per-channel quantization with identical per-channel
// parameters: the results must match the per-tensor case.
const WEIGHTS_PER_CHANNEL: Tensor2D<i8, f32, 3, 4, 4> = Tensor2D {
    buffer: [[9, 10, 11, 12], [13, 14, 15, 16], [17, 18, 19, 20]],
    scale: [0.21, 0.21, 0.21, 0.21],
    zero_point: [22, 22, 22, 22],
};
const OUTPUT_SCALE: [f32; 1] = [0.29];
const OUTPUT_ZERO_POINT: [i8; 1] = [30];
const OPTIONS: FullyConnectedOptions = FullyConnectedOptions {
    fused_activation: FusedActivation::Relu,
};
// Zero-point correction per column: zp_x * (col_sum - INPUT_COLS * zp_w)
// = 8 * (39 - 3*22) = -216 for column 0, etc.
const CONSTANTS: ([[f32; 1]; 4], [[f32; 1]; 4], [[i32; 4]; 1]) = (
    [[-4.655_172_3], [-3.724_138], [-2.793_103_5], [-1.862_069]],
    [[0.506_896_56], [0.506_896_56], [0.506_896_56], [0.506_896_56]],
    [[-216, -192, -168, -144]],
);
const OUTPUT: Tensor2D<i8, f32, 2, 4, 1> = Tensor2D {
    buffer: [[112, 103, 95, 87], [70, 67, 63, 60]],
    scale: [0.29],
    zero_point: [30],
};

fn requantize(bias: f32, multiplier: f32, sum: i32, zero_point: i8) -> i8 {
    (zero_point as f32 + bias + multiplier * sum as f32).round() as i8
}

fn quantize_six(scale: f32, zero_point: i8) -> i8 {
    ((6.0 / scale).round() + zero_point as f32) as i8
}

#[test]
fn fully_connected_layer() {
    assert_eq!(
        fully_connected(
            INPUT,
            &WEIGHTS,
            OUTPUT_SCALE,
            OUTPUT_ZERO_POINT,
            OPTIONS,
            CONSTANTS,
            &requantize,
            &quantize_six,
        ),
        OUTPUT
    )
}

#[test]
fn fully_connected_layer_per_channel() {
    assert_eq!(
        fully_connected(
            INPUT,
            &WEIGHTS_PER_CHANNEL,
            OUTPUT_SCALE,
            OUTPUT_ZERO_POINT,
            OPTIONS,
            CONSTANTS,
            &requantize,
            &quantize_six,
        ),
        OUTPUT
    )
}

/// The accumulators are the products of the centered input and the centered
/// weights.
#[test]
fn accumulators_are_the_centered_products() {
    let sums = checked_accumulators(&INPUT, &WEIGHTS, &CONSTANTS.2).unwrap();
    for i in 0..2 {
        for j in 0..4 {
            let mut expected = 0i32;
            for k in 0..3 {
                expected += (INPUT.buffer[i][k] as i32 - 8) * (WEIGHTS.buffer[k][j] as i32 - 22);
            }
            assert_eq!(sums[i][j], expected);
        }
    }
    assert_eq!(sums[0][0], 170);
    assert_eq!(sums, checked_accumulators(&INPUT, &WEIGHTS_PER_CHANNEL, &CONSTANTS.2).unwrap());
}

/// Moving the input with its zero point, and the corrections with it, leaves
/// the accumulators.
#[test]
fn shifted_input_gives_the_same_accumulators() {
    let shifted: Tensor2D<i8, f32, 2, 3, 1> =
        Tensor2D::new([[-9, -8, -7], [-6, -5, -4]], [0.7], [-2]);
    let corrections = [[-2 * (39 - 66), -2 * (42 - 66), -2 * (45 - 66), -2 * (48 - 66)]];
    assert_eq!(
        checked_accumulators(&shifted, &WEIGHTS, &corrections),
        checked_accumulators(&INPUT, &WEIGHTS, &CONSTANTS.2)
    );
}

#[test]
fn fused_relu6_caps_the_output() {
    let output = checked_fully_connected(
        &INPUT,
        &WEIGHTS,
        OUTPUT_SCALE,
        OUTPUT_ZERO_POINT,
        FullyConnectedOptions { fused_activation: FusedActivation::Relu6 },
        &CONSTANTS,
        &requantize,
        &quantize_six,
    )
    .unwrap();
    // Six is 21 steps above the zero point.
    assert_eq!(output.buffer, [[51, 51, 51, 51], [51, 51, 51, 51]]);
}

#[test]
fn undefined_layers() {
    let none: Tensor2D<i8, f32, 3, 4, 0> = Tensor2D::new(WEIGHTS.buffer, [], []);
    assert_eq!(checked_accumulators(&INPUT, &none, &CONSTANTS.2), None);
    assert_eq!(checked_accumulators(&INPUT, &WEIGHTS, &[[i32::MAX; 4]]), None);
}
