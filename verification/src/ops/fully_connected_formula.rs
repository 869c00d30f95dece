//! The fully connected operation as a formula over the elements of its
//! tensors.
use crate::activation;
use crate::ops::accumulate;
use crate::ops::accumulate_laws;
use crate::ops::fully_connected;
use crate::ops::fully_connected::FullyConnectedOptions;
use crate::quantize::Quantized;
use crate::sums;
use crate::tensor::{Buffer2D, Tensor2D};
use vstd::prelude::*;

verus! {

/// The zero point of the weights of output column `j`.
pub open spec fn weight_zero_point<
    T: Quantized,
    S,
    const ROWS: usize,
    const COLS: usize,
    const QUANTS: usize,
>(weights: Tensor2D<T, S, ROWS, COLS, QUANTS>, j: int) -> int {
    if j < QUANTS {
        weights.zero_point[j].value()
    } else {
        weights.zero_point[0].value()
    }
}

/// The sum of the first `n` products of row `i` of the input with column `j`
/// of the weights.
pub open spec fn products<
    T: Quantized,
    S,
    const INPUT_ROWS: usize,
    const INPUT_COLS: usize,
    const WEIGHTS_COLS: usize,
    const WEIGHTS_QUANTS: usize,
>(
    input: Tensor2D<T, S, INPUT_ROWS, INPUT_COLS, 1>,
    weights: Tensor2D<T, S, INPUT_COLS, WEIGHTS_COLS, WEIGHTS_QUANTS>,
    i: int,
    j: int,
    n: nat,
) -> int {
    sums::summed(|k: int| input.buffer[i][k].value() * weights.buffer[k][j].value(), n)
}

/// The sum of the first `n` elements of row `i` of the input.
pub open spec fn row_sum<
    T: Quantized,
    S,
    const INPUT_ROWS: usize,
    const INPUT_COLS: usize,
>(input: Tensor2D<T, S, INPUT_ROWS, INPUT_COLS, 1>, i: int, n: nat) -> int {
    sums::summed(|k: int| input.buffer[i][k].value(), n)
}

/// The dot product of a row and a column, as the kernel adds it.
proof fn lemma_products<
    T: Quantized,
    S,
    const INPUT_ROWS: usize,
    const INPUT_COLS: usize,
    const WEIGHTS_COLS: usize,
    const WEIGHTS_QUANTS: usize,
>(
    input: Tensor2D<T, S, INPUT_ROWS, INPUT_COLS, 1>,
    weights: Tensor2D<T, S, INPUT_COLS, WEIGHTS_COLS, WEIGHTS_QUANTS>,
    i: int,
    j: int,
    n: nat,
)
    requires
        n <= INPUT_COLS,
    ensures
        accumulate::dot(fully_connected::row(input, i), fully_connected::column(weights, j), n)
            == products(input, weights, i, j, n),
        accumulate::total(fully_connected::row(input, i), n) == row_sum(input, i, n),
{
    let x = fully_connected::row(input, i);
    let w = fully_connected::column(weights, j);
    accumulate_laws::law_dot_is_the_sum_of_products(x, w, n);
    accumulate_laws::law_total_is_the_sum(x, n);
    let a = |k: int| x[k] * w[k];
    let b = |k: int| input.buffer[i][k].value() * weights.buffer[k][j].value();
    assert forall|k: int| 0 <= k < n implies #[trigger] a(k) == b(k) by {}
    sums::lemma_same_sum(a, b, n);
    let c = |k: int| x[k];
    let d = |k: int| input.buffer[i][k].value();
    assert forall|k: int| 0 <= k < n implies #[trigger] c(k) == d(k) by {}
    sums::lemma_same_sum(c, d, n);
}

/// The accumulator of input row `i` and output column `j` is
/// `sum x[i][k] * w[k][j] - zp_w_j * sum x[i][k] - correction_j`.
pub proof fn law_accumulator_is_the_corrected_sum<
    T: Quantized,
    S,
    const INPUT_ROWS: usize,
    const INPUT_COLS: usize,
    const WEIGHTS_COLS: usize,
    const WEIGHTS_QUANTS: usize,
>(
    input: Tensor2D<T, S, INPUT_ROWS, INPUT_COLS, 1>,
    weights: Tensor2D<T, S, INPUT_COLS, WEIGHTS_COLS, WEIGHTS_QUANTS>,
    corrections: Buffer2D<i32, 1, WEIGHTS_COLS>,
    i: int,
    j: int,
)
    requires
        0 <= i < INPUT_ROWS,
        0 <= j < WEIGHTS_COLS,
    ensures
        fully_connected::accumulator(input, weights, corrections, i, j) == products(
            input,
            weights,
            i,
            j,
            INPUT_COLS as nat,
        ) - weight_zero_point(weights, j) * row_sum(input, i, INPUT_COLS as nat)
            - corrections[0][j],
{
    lemma_products(input, weights, i, j, INPUT_COLS as nat);
}

/// Whether the accumulator of input row `i` and output column `j` can be
/// held at every operation.
pub open spec fn can_be_held<
    T: Quantized,
    S,
    const INPUT_ROWS: usize,
    const INPUT_COLS: usize,
    const WEIGHTS_COLS: usize,
    const WEIGHTS_QUANTS: usize,
>(
    input: Tensor2D<T, S, INPUT_ROWS, INPUT_COLS, 1>,
    weights: Tensor2D<T, S, INPUT_COLS, WEIGHTS_COLS, WEIGHTS_QUANTS>,
    corrections: Buffer2D<i32, 1, WEIGHTS_COLS>,
    i: int,
    j: int,
) -> bool {
    let dot = products(input, weights, i, j, INPUT_COLS as nat);
    let offset = weight_zero_point(weights, j) * row_sum(input, i, INPUT_COLS as nat);
    &&& forall|n: nat|
        n <= INPUT_COLS ==> i32::MIN <= #[trigger] products(input, weights, i, j, n) <= i32::MAX
    &&& i32::MIN <= offset <= i32::MAX
    &&& i32::MIN <= dot - offset <= i32::MAX
    &&& i32::MIN <= dot - offset - corrections[0][j] <= i32::MAX
}

/// One accumulator fits exactly where it can be held at every operation.
proof fn lemma_can_be_held<
    T: Quantized,
    S,
    const INPUT_ROWS: usize,
    const INPUT_COLS: usize,
    const WEIGHTS_COLS: usize,
    const WEIGHTS_QUANTS: usize,
>(
    input: Tensor2D<T, S, INPUT_ROWS, INPUT_COLS, 1>,
    weights: Tensor2D<T, S, INPUT_COLS, WEIGHTS_COLS, WEIGHTS_QUANTS>,
    corrections: Buffer2D<i32, 1, WEIGHTS_COLS>,
    i: int,
    j: int,
)
    requires
        0 <= i < INPUT_ROWS,
        0 <= j < WEIGHTS_COLS,
    ensures
        fully_connected::accumulator_fits(input, weights, corrections, i, j) <==> can_be_held(
            input,
            weights,
            corrections,
            i,
            j,
        ),
{
    let x = fully_connected::row(input, i);
    let w = fully_connected::column(weights, j);
    lemma_products(input, weights, i, j, INPUT_COLS as nat);
    law_accumulator_is_the_corrected_sum(input, weights, corrections, i, j);
    if fully_connected::accumulator_fits(input, weights, corrections, i, j) {
        assert forall|n: nat| n <= INPUT_COLS implies i32::MIN <= #[trigger] products(
            input,
            weights,
            i,
            j,
            n,
        ) <= i32::MAX by {
            lemma_products(input, weights, i, j, n);
            assert(accumulate::fits(0 + accumulate::dot(x, w, n)));
        }
    }
    if can_be_held(input, weights, corrections, i, j) {
        assert forall|n: nat| n <= INPUT_COLS implies accumulate::fits(
            0 + #[trigger] accumulate::dot(x, w, n),
        ) by {
            lemma_products(input, weights, i, j, n);
        }
    }
}

/// The operation is defined exactly where the weights have a zero point, if
/// one is needed, and every row sum and every accumulator can be held at
/// every operation.
pub proof fn law_defined_where_the_sums_can_be_held<
    T: Quantized,
    S,
    const INPUT_ROWS: usize,
    const INPUT_COLS: usize,
    const WEIGHTS_COLS: usize,
    const WEIGHTS_QUANTS: usize,
>(
    input: Tensor2D<T, S, INPUT_ROWS, INPUT_COLS, 1>,
    weights: Tensor2D<T, S, INPUT_COLS, WEIGHTS_COLS, WEIGHTS_QUANTS>,
    corrections: Buffer2D<i32, 1, WEIGHTS_COLS>,
)
    ensures
        fully_connected::fully_connected_defined(input, weights, corrections) <==> {
            &&& INPUT_ROWS == 0 || WEIGHTS_COLS == 0 || WEIGHTS_QUANTS > 0
            &&& forall|i: int, n: nat|
                0 <= i < INPUT_ROWS && n <= INPUT_COLS ==> i32::MIN <= #[trigger] row_sum(
                    input,
                    i,
                    n,
                ) <= i32::MAX
            &&& forall|i: int, j: int|
                0 <= i < INPUT_ROWS && 0 <= j < WEIGHTS_COLS ==> #[trigger] can_be_held(
                    input,
                    weights,
                    corrections,
                    i,
                    j,
                )
        },
{
    let cols = INPUT_COLS as nat;
    if fully_connected::fully_connected_defined(input, weights, corrections) {
        assert forall|i: int, n: nat|
            0 <= i < INPUT_ROWS && n <= INPUT_COLS implies i32::MIN <= #[trigger] row_sum(
            input,
            i,
            n,
        ) <= i32::MAX by {
            let x = fully_connected::row(input, i);
            assert(accumulate::total_fits(x, cols));
            lemma_products(input, weights, i, 0, n);
            assert(accumulate::fits(accumulate::total(x, n)));
        }
        assert forall|i: int, j: int|
            0 <= i < INPUT_ROWS && 0 <= j < WEIGHTS_COLS implies #[trigger] can_be_held(
            input,
            weights,
            corrections,
            i,
            j,
        ) by {
            assert(fully_connected::accumulator_fits(input, weights, corrections, i, j));
            lemma_can_be_held(input, weights, corrections, i, j);
        }
    }
    if {
        &&& INPUT_ROWS == 0 || WEIGHTS_COLS == 0 || WEIGHTS_QUANTS > 0
        &&& forall|i: int, n: nat|
            0 <= i < INPUT_ROWS && n <= INPUT_COLS ==> i32::MIN <= #[trigger] row_sum(
                input,
                i,
                n,
            ) <= i32::MAX
        &&& forall|i: int, j: int|
            0 <= i < INPUT_ROWS && 0 <= j < WEIGHTS_COLS ==> #[trigger] can_be_held(
                input,
                weights,
                corrections,
                i,
                j,
            )
    } {
        assert forall|i: int| 0 <= i < INPUT_ROWS implies accumulate::total_fits(
            #[trigger] fully_connected::row(input, i),
            cols,
        ) by {
            let x = fully_connected::row(input, i);
            assert forall|n: nat| n <= cols implies accumulate::fits(
                #[trigger] accumulate::total(x, n),
            ) by {
                lemma_products(input, weights, i, 0, n);
                assert(i32::MIN <= row_sum(input, i, n) <= i32::MAX);
            }
        }
        assert forall|i: int, j: int|
            0 <= i < INPUT_ROWS && 0 <= j
                < WEIGHTS_COLS implies #[trigger] fully_connected::accumulator_fits(
            input,
            weights,
            corrections,
            i,
            j,
        ) by {
            assert(can_be_held(input, weights, corrections, i, j));
            lemma_can_be_held(input, weights, corrections, i, j);
        }
    }
}

/// What an output is made of: the bias and the multiplier of its own column,
/// its accumulator and the zero point of the output, requantized, after the
/// activation function.
pub proof fn law_output_is_the_formula<
    T: Quantized,
    S,
    R: Fn(S, S, i32, T) -> T,
    X: Fn(S, T) -> T,
    const INPUT_ROWS: usize,
    const INPUT_COLS: usize,
    const WEIGHTS_COLS: usize,
    const WEIGHTS_QUANTS: usize,
>(
    output: Tensor2D<T, S, INPUT_ROWS, WEIGHTS_COLS, 1>,
    input: Tensor2D<T, S, INPUT_ROWS, INPUT_COLS, 1>,
    weights: Tensor2D<T, S, INPUT_COLS, WEIGHTS_COLS, WEIGHTS_QUANTS>,
    output_scale: [S; 1],
    output_zero_point: [T; 1],
    options: FullyConnectedOptions,
    constants: (
        Buffer2D<S, WEIGHTS_COLS, 1>,
        Buffer2D<S, WEIGHTS_COLS, 1>,
        Buffer2D<i32, 1, WEIGHTS_COLS>,
    ),
    requantize: R,
    quantize_six: X,
    i: int,
    j: int,
)
    requires
        fully_connected::is_layer_output(
            output,
            input,
            weights,
            output_scale,
            output_zero_point,
            options,
            constants,
            requantize,
            quantize_six,
        ),
        0 <= i < INPUT_ROWS,
        0 <= j < WEIGHTS_COLS,
    ensures
        output.scale == output_scale,
        output.zero_point == output_zero_point,
        ({
            let zero_point = output_zero_point[0];
            let sum = (products(input, weights, i, j, INPUT_COLS as nat) - weight_zero_point(
                weights,
                j,
            ) * row_sum(input, i, INPUT_COLS as nat) - constants.2[0][j]) as i32;
            let element = output.buffer[i][j];
            exists|value: T|
                {
                    &&& #[trigger] call_ensures(
                        requantize,
                        (constants.0[j][0], constants.1[j][0], sum, zero_point),
                        value,
                    )
                    &&& options.fused_activation is Linear ==> element == value
                    &&& options.fused_activation is Relu ==> {
                        &&& element.value() >= zero_point.value()
                        &&& element.value() >= value.value()
                        &&& element == value || element == zero_point
                    }
                    &&& options.fused_activation is Relu6 ==> exists|six: T|
                        {
                            &&& #[trigger] call_ensures(
                                quantize_six,
                                (output_scale[0], zero_point),
                                six,
                            )
                            &&& element.value() <= six.value()
                            &&& element == value || element == zero_point || element == six
                            &&& value.value() <= element.value() || element == six
                            &&& zero_point.value() <= element.value() || element == six
                            &&& element.value() <= value.value() || element.value()
                                <= zero_point.value()
                        }
                }
        }),
{
    law_accumulator_is_the_corrected_sum(input, weights, constants.2, i, j);
    let zero_point = output_zero_point[0];
    let sum = (products(input, weights, i, j, INPUT_COLS as nat) - weight_zero_point(weights, j)
        * row_sum(input, i, INPUT_COLS as nat) - constants.2[0][j]) as i32;
    let element = output.buffer[i][j];
    assert(fully_connected::requantized(
        requantize,
        quantize_six,
        constants.0[j][0],
        constants.1[j][0],
        output_scale[0],
        zero_point,
        options.fused_activation,
        sum,
        element,
    ));
    let value = choose|value: T|
        {
            &&& #[trigger] call_ensures(
                requantize,
                (constants.0[j][0], constants.1[j][0], sum, zero_point),
                value,
            )
            &&& activation::activated(
                options.fused_activation,
                quantize_six,
                output_scale[0],
                zero_point,
                value,
                element,
            )
        };
    activation::law_activation_values(
        options.fused_activation,
        quantize_six,
        output_scale[0],
        zero_point,
        value,
        element,
    );
    assert(call_ensures(
        requantize,
        (constants.0[j][0], constants.1[j][0], sum, zero_point),
        value,
    ));
}

} // verus!
