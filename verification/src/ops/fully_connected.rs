//! Product of an input with a matrix of weights.
use crate::activation;
use crate::activation::{activate, FusedActivation};
use crate::ops::accumulate;
use crate::quantize;
use crate::quantize::{channel_parameter, Quantized};
use crate::tensor::{Buffer2D, Tensor2D};
use vstd::prelude::*;

verus! {

/// Options of the FullyConnected operator.
#[derive(Clone, Copy, Debug, PartialEq, Eq, Structural)]
pub struct FullyConnectedOptions {
    pub fused_activation: FusedActivation,
}

/// The values of row `i` of a matrix.
pub open spec fn row<T: Quantized, S, const ROWS: usize, const COLS: usize, const QUANTS: usize>(
    tensor: Tensor2D<T, S, ROWS, COLS, QUANTS>,
    i: int,
) -> Seq<int> {
    Seq::new(COLS as nat, |k: int| tensor.buffer[i][k].value())
}

/// The values of column `j` of a matrix.
pub open spec fn column<
    T: Quantized,
    S,
    const ROWS: usize,
    const COLS: usize,
    const QUANTS: usize,
>(tensor: Tensor2D<T, S, ROWS, COLS, QUANTS>, j: int) -> Seq<int> {
    Seq::new(ROWS as nat, |k: int| tensor.buffer[k][j].value())
}

/// The dot product of an input row with a column of weights, corrected by
/// the sum of the input row and by the constant of the column.
pub open spec fn corrected(dot: int, row_sum: int, zero_point: int, correction: int) -> int {
    dot - zero_point * row_sum - correction
}

/// The accumulator of input row `i` and output column `j`.
pub open spec fn accumulator<
    T: Quantized,
    S,
    const INPUT_ROWS: usize,
    const INPUT_COLS: usize,
    const WEIGHTS_COLS: usize,
    const WEIGHTS_QUANTS: usize,
>(
    input: Tensor2D<T, S, INPUT_ROWS, INPUT_COLS, 1>,
    weights: Tensor2D<T, S, INPUT_COLS, WEIGHTS_COLS, WEIGHTS_QUANTS>,
    corrections: Buffer2D<i32, 1, WEIGHTS_COLS>,
    i: int,
    j: int,
) -> int {
    corrected(
        accumulate::dot(row(input, i), column(weights, j), INPUT_COLS as nat),
        accumulate::total(row(input, i), INPUT_COLS as nat),
        quantize::per_channel(weights.zero_point@, j).value(),
        corrections[0][j] as int,
    )
}

/// Whether the accumulator of input row `i` and output column `j` can hold
/// every intermediate value.
pub open spec fn accumulator_fits<
    T: Quantized,
    S,
    const INPUT_ROWS: usize,
    const INPUT_COLS: usize,
    const WEIGHTS_COLS: usize,
    const WEIGHTS_QUANTS: usize,
>(
    input: Tensor2D<T, S, INPUT_ROWS, INPUT_COLS, 1>,
    weights: Tensor2D<T, S, INPUT_COLS, WEIGHTS_COLS, WEIGHTS_QUANTS>,
    corrections: Buffer2D<i32, 1, WEIGHTS_COLS>,
    i: int,
    j: int,
) -> bool {
    let zero_point = quantize::per_channel(weights.zero_point@, j).value();
    let dot = accumulate::dot(row(input, i), column(weights, j), INPUT_COLS as nat);
    let row_sum = accumulate::total(row(input, i), INPUT_COLS as nat);
    &&& accumulate::dot_fits(0, row(input, i), column(weights, j), INPUT_COLS as nat)
    &&& accumulate::fits(zero_point * row_sum)
    &&& accumulate::fits(dot - zero_point * row_sum)
    &&& accumulate::fits(accumulator(input, weights, corrections, i, j))
}

/// Whether the operation is defined: the weights have a zero point, where
/// one is needed, and no sum leaves the accumulator.
pub open spec fn fully_connected_defined<
    T: Quantized,
    S,
    const INPUT_ROWS: usize,
    const INPUT_COLS: usize,
    const WEIGHTS_COLS: usize,
    const WEIGHTS_QUANTS: usize,
>(
    input: Tensor2D<T, S, INPUT_ROWS, INPUT_COLS, 1>,
    weights: Tensor2D<T, S, INPUT_COLS, WEIGHTS_COLS, WEIGHTS_QUANTS>,
    corrections: Buffer2D<i32, 1, WEIGHTS_COLS>,
) -> bool {
    &&& INPUT_ROWS > 0 && WEIGHTS_COLS > 0 ==> WEIGHTS_QUANTS > 0
    &&& forall|i: int|
        0 <= i < INPUT_ROWS ==> accumulate::total_fits(
            #[trigger] row(input, i),
            INPUT_COLS as nat,
        )
    &&& forall|i: int, j: int|
        0 <= i < INPUT_ROWS && 0 <= j < WEIGHTS_COLS ==> #[trigger] accumulator_fits(
            input,
            weights,
            corrections,
            i,
            j,
        )
}

/// Adds up row `i` of a matrix, `None` where the accumulator overflows.
fn checked_row_sum<
    T: Quantized,
    S,
    const ROWS: usize,
    const COLS: usize,
    const QUANTS: usize,
>(tensor: &Tensor2D<T, S, ROWS, COLS, QUANTS>, i: usize) -> (r: Option<i32>)
    requires
        i < ROWS,
    ensures
        r is Some <==> accumulate::total_fits(row(*tensor, i as int), COLS as nat),
        r matches Some(sum) ==> sum == accumulate::total(row(*tensor, i as int), COLS as nat),
{
    let ghost values = row(*tensor, i as int);
    let mut sum: i32 = 0;
    let mut k: usize = 0;
    #[verifier::loop_isolation(false)]
    while k < COLS
        invariant
            k <= COLS,
            sum == accumulate::total(values, k as nat),
            accumulate::total_fits(values, k as nat),
        decreases COLS - k,
    {
        let value: i32 = tensor.buffer[i][k].to_i32();
        assert(accumulate::total(values, (k + 1) as nat) == sum + value);
        match sum.checked_add(value) {
            Some(next) => {
                sum = next;
            },
            None => {
                assert(!accumulate::fits(accumulate::total(values, (k + 1) as nat)));
                return None;
            },
        }
        k += 1;
    }
    Some(sum)
}

/// Multiplies row `i` of the input with column `j` of the weights, `None`
/// where the accumulator overflows.
fn checked_dot<
    T: Quantized,
    S,
    const INPUT_ROWS: usize,
    const INPUT_COLS: usize,
    const WEIGHTS_COLS: usize,
    const WEIGHTS_QUANTS: usize,
>(
    input: &Tensor2D<T, S, INPUT_ROWS, INPUT_COLS, 1>,
    weights: &Tensor2D<T, S, INPUT_COLS, WEIGHTS_COLS, WEIGHTS_QUANTS>,
    i: usize,
    j: usize,
) -> (r: Option<i32>)
    requires
        i < INPUT_ROWS,
        j < WEIGHTS_COLS,
    ensures
        r is Some <==> accumulate::dot_fits(
            0,
            row(*input, i as int),
            column(*weights, j as int),
            INPUT_COLS as nat,
        ),
        r matches Some(sum) ==> sum == accumulate::dot(
            row(*input, i as int),
            column(*weights, j as int),
            INPUT_COLS as nat,
        ),
{
    let ghost a = row(*input, i as int);
    let ghost b = column(*weights, j as int);
    let mut sum: i32 = 0;
    let mut k: usize = 0;
    #[verifier::loop_isolation(false)]
    while k < INPUT_COLS
        invariant
            k <= INPUT_COLS,
            sum == accumulate::dot(a, b, k as nat),
            accumulate::dot_fits(0, a, b, k as nat),
        decreases INPUT_COLS - k,
    {
        let sample: i32 = input.buffer[i][k].to_i32();
        let weight: i32 = weights.buffer[k][j].to_i32();
        assert(-65025 <= sample * weight <= 65025) by (nonlinear_arith)
            requires
                -255 <= sample <= 255,
                -255 <= weight <= 255,
        ;
        let product: i32 = sample * weight;
        assert(accumulate::dot(a, b, (k + 1) as nat) == sum + product);
        match sum.checked_add(product) {
            Some(next) => {
                sum = next;
            },
            None => {
                assert(!accumulate::fits(0 + accumulate::dot(a, b, (k + 1) as nat)));
                return None;
            },
        }
        k += 1;
    }
    Some(sum)
}

/// Computes the accumulator of every input row and output column: `None`
/// where the weights have no zero point or the accumulator overflows.
pub fn checked_accumulators<
    T: Quantized,
    S,
    const INPUT_ROWS: usize,
    const INPUT_COLS: usize,
    const WEIGHTS_COLS: usize,
    const WEIGHTS_QUANTS: usize,
>(
    input: &Tensor2D<T, S, INPUT_ROWS, INPUT_COLS, 1>,
    weights: &Tensor2D<T, S, INPUT_COLS, WEIGHTS_COLS, WEIGHTS_QUANTS>,
    corrections: &Buffer2D<i32, 1, WEIGHTS_COLS>,
) -> (r: Option<[[i32; WEIGHTS_COLS]; INPUT_ROWS]>)
    ensures
        r is Some <==> fully_connected_defined(*input, *weights, *corrections),
        r matches Some(sums) ==> forall|i: int, j: int|
            0 <= i < INPUT_ROWS && 0 <= j < WEIGHTS_COLS ==> #[trigger] sums[i][j] == accumulator(
                *input,
                *weights,
                *corrections,
                i,
                j,
            ),
{
    if INPUT_ROWS > 0 && WEIGHTS_COLS > 0 && WEIGHTS_QUANTS == 0 {
        return None;
    }
    let mut sums: [[i32; WEIGHTS_COLS]; INPUT_ROWS] = [[0i32; WEIGHTS_COLS]; INPUT_ROWS];
    let mut i: usize = 0;
    #[verifier::loop_isolation(false)]
    while i < INPUT_ROWS
        invariant
            i <= INPUT_ROWS,
            forall|p: int|
                0 <= p < i ==> accumulate::total_fits(
                    #[trigger] row(*input, p),
                    INPUT_COLS as nat,
                ),
            forall|p: int, q: int|
                0 <= p < i && 0 <= q < WEIGHTS_COLS ==> #[trigger] accumulator_fits(
                    *input,
                    *weights,
                    *corrections,
                    p,
                    q,
                ),
            forall|p: int, q: int|
                0 <= p < i && 0 <= q < WEIGHTS_COLS ==> #[trigger] sums[p][q] == accumulator(
                    *input,
                    *weights,
                    *corrections,
                    p,
                    q,
                ),
        decreases INPUT_ROWS - i,
    {
        let row_sum: i32 = match checked_row_sum(input, i) {
            Some(sum) => sum,
            None => {
                return None;
            },
        };
        let mut j: usize = 0;
        #[verifier::loop_isolation(false)]
        while j < WEIGHTS_COLS
            invariant
                j <= WEIGHTS_COLS,
                forall|q: int|
                    0 <= q < j ==> #[trigger] accumulator_fits(
                        *input,
                        *weights,
                        *corrections,
                        i as int,
                        q,
                    ),
                forall|p: int, q: int|
                    (0 <= p < i && 0 <= q < WEIGHTS_COLS) || (p == i && 0 <= q < j)
                        ==> #[trigger] sums[p][q] == accumulator(
                        *input,
                        *weights,
                        *corrections,
                        p,
                        q,
                    ),
            decreases WEIGHTS_COLS - j,
        {
            let zero_point: i32 = channel_parameter(&weights.zero_point, j).to_i32();
            match checked_combine(
                checked_dot(input, weights, i, j),
                row_sum,
                zero_point,
                corrections[0][j],
            ) {
                Some(sum) => {
                    sums[i][j] = sum;
                },
                None => {
                    assert(!accumulator_fits(*input, *weights, *corrections, i as int, j as int));
                    return None;
                },
            }
            j += 1;
        }
        i += 1;
    }
    Some(sums)
}

/// Corrects a dot product: `None` where there is none or a value on the way
/// cannot be held.
fn checked_combine(dot: Option<i32>, row_sum: i32, zero_point: i32, correction: i32) -> (r: Option<
    i32,
>)
    ensures
        r is Some <==> {
            &&& dot is Some
            &&& accumulate::fits(zero_point * row_sum)
            &&& accumulate::fits(dot->Some_0 - zero_point * row_sum)
            &&& accumulate::fits(
                corrected(
                    dot->Some_0 as int,
                    row_sum as int,
                    zero_point as int,
                    correction as int,
                ),
            )
        },
        r matches Some(sum) ==> sum == corrected(
            dot->Some_0 as int,
            row_sum as int,
            zero_point as int,
            correction as int,
        ),
{
    match dot {
        Some(dot) => match zero_point.checked_mul(row_sum) {
            Some(product) => match dot.checked_sub(product) {
                Some(difference) => difference.checked_sub(correction),
                None => None,
            },
            None => None,
        },
        None => None,
    }
}

/// What requantization and the fused activation function make of an
/// accumulator: `requantize` takes the bias and the multiplier of the output
/// column, the accumulator and the zero point of the output.
pub open spec fn requantized<T: Quantized, S, R: Fn(S, S, i32, T) -> T, X: Fn(S, T) -> T>(
    requantize: R,
    quantize_six: X,
    bias: S,
    multiplier: S,
    output_scale: S,
    zero_point: T,
    function: FusedActivation,
    sum: i32,
    output: T,
) -> bool {
    exists|value: T|
        {
            &&& #[trigger] call_ensures(requantize, (bias, multiplier, sum, zero_point), value)
            &&& activation::activated(
                function,
                quantize_six,
                output_scale,
                zero_point,
                value,
                output,
            )
        }
}

/// Whether `output` is the product of an input with some weights: it has the
/// given scale and zero point, and every element is what requantization and
/// the fused activation function make of its accumulator.
pub open spec fn is_layer_output<
    T: Quantized,
    S,
    R: Fn(S, S, i32, T) -> T,
    X: Fn(S, T) -> T,
    const INPUT_ROWS: usize,
    const INPUT_COLS: usize,
    const WEIGHTS_COLS: usize,
    const WEIGHTS_QUANTS: usize,
>(
    output: Tensor2D<T, S, INPUT_ROWS, WEIGHTS_COLS, 1>,
    input: Tensor2D<T, S, INPUT_ROWS, INPUT_COLS, 1>,
    weights: Tensor2D<T, S, INPUT_COLS, WEIGHTS_COLS, WEIGHTS_QUANTS>,
    output_scale: [S; 1],
    output_zero_point: [T; 1],
    options: FullyConnectedOptions,
    constants: (
        Buffer2D<S, WEIGHTS_COLS, 1>,
        Buffer2D<S, WEIGHTS_COLS, 1>,
        Buffer2D<i32, 1, WEIGHTS_COLS>,
    ),
    requantize: R,
    quantize_six: X,
) -> bool {
    &&& output.scale == output_scale
    &&& output.zero_point == output_zero_point
    &&& forall|i: int, j: int|
        0 <= i < INPUT_ROWS && 0 <= j < WEIGHTS_COLS ==> requantized(
            requantize,
            quantize_six,
            constants.0[j][0],
            constants.1[j][0],
            output_scale[0],
            output_zero_point[0],
            options.fused_activation,
            accumulator(input, weights, constants.2, i, j) as i32,
            #[trigger] output.buffer[i][j],
        )
}

/// Performs the FullyConnected operation with per-channel weight
/// quantization: `None` where it is not defined.
///
/// `WEIGHTS_QUANTS` scales and zero points are attached to the weights, one
/// per output unit. The constants are given per output column `j`:
/// - `constants.0[j]`: the bias term, already scaled to the output scale;
/// - `constants.1[j]`: the multiplier of the column;
/// - `constants.2[j]`: the zero-point correction
///   `zp_x * (sum_i w[i][j] - INPUT_COLS * zp_w[j])`.
pub fn checked_fully_connected<
    T: Quantized,
    S: Copy,
    R: Fn(S, S, i32, T) -> T,
    X: Fn(S, T) -> T,
    const INPUT_ROWS: usize,
    const INPUT_COLS: usize,
    const WEIGHTS_COLS: usize,
    const WEIGHTS_QUANTS: usize,
>(
    input: &Tensor2D<T, S, INPUT_ROWS, INPUT_COLS, 1>,
    weights: &Tensor2D<T, S, INPUT_COLS, WEIGHTS_COLS, WEIGHTS_QUANTS>,
    output_scale: [S; 1],
    output_zero_point: [T; 1],
    options: FullyConnectedOptions,
    constants: &(
        Buffer2D<S, WEIGHTS_COLS, 1>,
        Buffer2D<S, WEIGHTS_COLS, 1>,
        Buffer2D<i32, 1, WEIGHTS_COLS>,
    ),
    requantize: &R,
    quantize_six: &X,
) -> (r: Option<Tensor2D<T, S, INPUT_ROWS, WEIGHTS_COLS, 1>>)
    requires
        forall|sum: i32, j: int|
            #![trigger call_requires(
                *requantize,
                (constants.0[j][0], constants.1[j][0], sum, output_zero_point[0]),
            )]
            0 <= j < WEIGHTS_COLS ==> call_requires(
                *requantize,
                (constants.0[j][0], constants.1[j][0], sum, output_zero_point[0]),
            ),
        options.fused_activation is Relu6 ==> call_requires(
            *quantize_six,
            (output_scale[0], output_zero_point[0]),
        ),
    ensures
        r is Some <==> fully_connected_defined(*input, *weights, constants.2),
        r matches Some(output) ==> is_layer_output(
            output,
            *input,
            *weights,
            output_scale,
            output_zero_point,
            options,
            *constants,
            *requantize,
            *quantize_six,
        ),
{
    let sums: [[i32; WEIGHTS_COLS]; INPUT_ROWS] = match checked_accumulators(
        input,
        weights,
        &constants.2,
    ) {
        Some(sums) => sums,
        None => {
            return None;
        },
    };
    let zero_point = output_zero_point[0];
    let mut values: [[T; WEIGHTS_COLS]; INPUT_ROWS] = [[zero_point; WEIGHTS_COLS]; INPUT_ROWS];
    let mut i: usize = 0;
    #[verifier::loop_isolation(false)]
    while i < INPUT_ROWS
        invariant
            i <= INPUT_ROWS,
            forall|p: int, q: int|
                0 <= p < i && 0 <= q < WEIGHTS_COLS ==> requantized(
                    *requantize,
                    *quantize_six,
                    constants.0[q][0],
                    constants.1[q][0],
                    output_scale[0],
                    output_zero_point[0],
                    options.fused_activation,
                    sums[p][q],
                    #[trigger] values[p][q],
                ),
        decreases INPUT_ROWS - i,
    {
        let mut j: usize = 0;
        #[verifier::loop_isolation(false)]
        while j < WEIGHTS_COLS
            invariant
                j <= WEIGHTS_COLS,
                forall|p: int, q: int|
                    (0 <= p < i && 0 <= q < WEIGHTS_COLS) || (p == i && 0 <= q < j)
                        ==> requantized(
                        *requantize,
                        *quantize_six,
                        constants.0[q][0],
                        constants.1[q][0],
                        output_scale[0],
                        output_zero_point[0],
                        options.fused_activation,
                        sums[p][q],
                        #[trigger] values[p][q],
                    ),
            decreases WEIGHTS_COLS - j,
        {
            let value = requantize(
                constants.0[j][0],
                constants.1[j][0],
                sums[i][j],
                zero_point,
            );
            values[i][j] =
            activate(
                options.fused_activation,
                quantize_six,
                output_scale[0],
                zero_point,
                value,
            );
            j += 1;
        }
        i += 1;
    }
    Some(Tensor2D::new(values, output_scale, output_zero_point))
}

/// Performs the FullyConnected operation with per-channel weight
/// quantization, as [`checked_fully_connected`] does, where it is defined.
pub fn fully_connected<
    T: Quantized,
    S: Copy,
    R: Fn(S, S, i32, T) -> T,
    X: Fn(S, T) -> T,
    const INPUT_ROWS: usize,
    const INPUT_COLS: usize,
    const WEIGHTS_COLS: usize,
    const WEIGHTS_QUANTS: usize,
>(
    input: Tensor2D<T, S, INPUT_ROWS, INPUT_COLS, 1>,
    weights: &Tensor2D<T, S, INPUT_COLS, WEIGHTS_COLS, WEIGHTS_QUANTS>,
    output_scale: [S; 1],
    output_zero_point: [T; 1],
    options: FullyConnectedOptions,
    constants: (
        Buffer2D<S, WEIGHTS_COLS, 1>,
        Buffer2D<S, WEIGHTS_COLS, 1>,
        Buffer2D<i32, 1, WEIGHTS_COLS>,
    ),
    requantize: &R,
    quantize_six: &X,
) -> (output: Tensor2D<T, S, INPUT_ROWS, WEIGHTS_COLS, 1>)
    requires
        fully_connected_defined(input, *weights, constants.2),
        forall|sum: i32, j: int|
            #![trigger call_requires(
                *requantize,
                (constants.0[j][0], constants.1[j][0], sum, output_zero_point[0]),
            )]
            0 <= j < WEIGHTS_COLS ==> call_requires(
                *requantize,
                (constants.0[j][0], constants.1[j][0], sum, output_zero_point[0]),
            ),
        options.fused_activation is Relu6 ==> call_requires(
            *quantize_six,
            (output_scale[0], output_zero_point[0]),
        ),
    ensures
        is_layer_output(
            output,
            input,
            *weights,
            output_scale,
            output_zero_point,
            options,
            constants,
            *requantize,
            *quantize_six,
        ),
{
    checked_fully_connected(
        &input,
        weights,
        output_scale,
        output_zero_point,
        options,
        &constants,
        requantize,
        quantize_six,
    ).unwrap()
}

} // verus!
