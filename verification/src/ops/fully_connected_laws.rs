//! What holds of every fully connected layer.
use crate::activation;
use crate::activation::FusedActivation;
use crate::compiler;
use crate::compiler::tensor::TokenTensor2D;
use crate::ops::accumulate;
use crate::ops::fully_connected;
use crate::quantize;
use crate::quantize::Quantized;
use crate::tensor::{Buffer2D, Tensor2D};
use vstd::prelude::*;

verus! {

/// A sequence, each value less an offset.
pub open spec fn less(a: Seq<int>, offset: int) -> Seq<int> {
    Seq::new(a.len(), |i: int| a[i] - offset)
}

/// The products of two centered sequences, by the products of the plain
/// ones.
proof fn lemma_centered_dot(x: Seq<int>, w: Seq<int>, zx: int, zw: int, n: nat)
    requires
        n <= x.len(),
        n <= w.len(),
    ensures
        accumulate::dot(less(x, zx), less(w, zw), n) == accumulate::dot(x, w, n) - zw
            * accumulate::total(x, n) - zx * (accumulate::total(w, n) - n * zw),
    decreases n,
{
    if n == 0 {
        assert(zw * 0 == 0 && zx * (0 - 0 * zw) == 0) by (nonlinear_arith);
    } else {
        let m = (n - 1) as nat;
        lemma_centered_dot(x, w, zx, zw, m);
        let a = x[n - 1];
        let b = w[n - 1];
        let sx = accumulate::total(x, m);
        let sw = accumulate::total(w, m);
        assert((a - zx) * (b - zw) == a * b - zw * a - zx * b + zx * zw) by (nonlinear_arith);
        assert(zw * (sx + a) == zw * sx + zw * a) by (nonlinear_arith);
        assert(zx * ((sw + b) - n * zw) == zx * (sw - m * zw) + zx * b - zx * zw)
            by (nonlinear_arith)
            requires
                n == m + 1,
        ;
    }
}

/// With the zero-point correction of its column, an accumulator is the sum
/// of the products of the centered input and the centered weights.
pub proof fn law_accumulator_is_the_centered_product<
    T: Quantized,
    S,
    const INPUT_ROWS: usize,
    const INPUT_COLS: usize,
    const WEIGHTS_COLS: usize,
    const WEIGHTS_QUANTS: usize,
>(
    input: Tensor2D<T, S, INPUT_ROWS, INPUT_COLS, 1>,
    weights: Tensor2D<T, S, INPUT_COLS, WEIGHTS_COLS, WEIGHTS_QUANTS>,
    corrections: Buffer2D<i32, 1, WEIGHTS_COLS>,
    i: int,
    j: int,
)
    requires
        0 <= i < INPUT_ROWS,
        0 <= j < WEIGHTS_COLS,
        corrections[0][j] == input.zero_point[0].value() * (accumulate::total(
            fully_connected::column(weights, j),
            INPUT_COLS as nat,
        ) - INPUT_COLS * quantize::per_channel(weights.zero_point@, j).value()),
    ensures
        fully_connected::accumulator(input, weights, corrections, i, j) == accumulate::dot(
            less(fully_connected::row(input, i), input.zero_point[0].value()),
            less(
                fully_connected::column(weights, j),
                quantize::per_channel(weights.zero_point@, j).value(),
            ),
            INPUT_COLS as nat,
        ),
{
    lemma_centered_dot(
        fully_connected::row(input, i),
        fully_connected::column(weights, j),
        input.zero_point[0].value(),
        quantize::per_channel(weights.zero_point@, j).value(),
        INPUT_COLS as nat,
    );
}

/// The corrections that the compiler computes are those that the kernel
/// needs: with them, an accumulator is the sum of the products of the
/// centered input and the centered weights.
pub proof fn law_compiled_corrections_center_the_product<
    T: Quantized,
    S,
    const INPUT_ROWS: usize,
    const INPUT_COLS: usize,
    const WEIGHTS_COLS: usize,
    const WEIGHTS_QUANTS: usize,
>(
    input: Tensor2D<T, S, INPUT_ROWS, INPUT_COLS, 1>,
    weights: Tensor2D<T, S, INPUT_COLS, WEIGHTS_COLS, WEIGHTS_QUANTS>,
    corrections: Buffer2D<i32, 1, WEIGHTS_COLS>,
    model_input: TokenTensor2D<T, S>,
    model_weights: TokenTensor2D<T, S>,
    i: int,
    j: int,
)
    requires
        0 <= i < INPUT_ROWS,
        0 <= j < WEIGHTS_COLS,
        INPUT_COLS <= i32::MAX,
        model_input.zero_point@ == input.zero_point@,
        model_weights.zero_point@ == weights.zero_point@,
        model_weights.shape@ == seq![INPUT_COLS, WEIGHTS_COLS],
        model_weights.buffer@[j]@ == Seq::new(INPUT_COLS as nat, |k: int| weights.buffer[k][j]),
        corrections[0][j] == compiler::fully_connected::correction(model_input, model_weights, j),
    ensures
        fully_connected::accumulator(input, weights, corrections, i, j) == accumulate::dot(
            less(fully_connected::row(input, i), input.zero_point[0].value()),
            less(
                fully_connected::column(weights, j),
                quantize::per_channel(weights.zero_point@, j).value(),
            ),
            INPUT_COLS as nat,
        ),
{
    assert(compiler::fully_connected::values(model_weights.buffer@[j]@)
        =~= fully_connected::column(weights, j));
    assert(model_input.zero_point@[0] == input.zero_point[0]);
    law_accumulator_is_the_centered_product(input, weights, corrections, i, j);
}

/// Moving the input together with its zero point changes no accumulator, if
/// the corrections follow.
pub proof fn law_shifted_input_gives_the_same_accumulators<
    T: Quantized,
    S,
    const INPUT_ROWS: usize,
    const INPUT_COLS: usize,
    const WEIGHTS_COLS: usize,
    const WEIGHTS_QUANTS: usize,
>(
    input: Tensor2D<T, S, INPUT_ROWS, INPUT_COLS, 1>,
    shifted: Tensor2D<T, S, INPUT_ROWS, INPUT_COLS, 1>,
    weights: Tensor2D<T, S, INPUT_COLS, WEIGHTS_COLS, WEIGHTS_QUANTS>,
    corrections: Buffer2D<i32, 1, WEIGHTS_COLS>,
    shifted_corrections: Buffer2D<i32, 1, WEIGHTS_COLS>,
    i: int,
    j: int,
)
    requires
        0 <= i < INPUT_ROWS,
        0 <= j < WEIGHTS_COLS,
        forall|k: int|
            0 <= k < INPUT_COLS ==> #[trigger] shifted.buffer[i][k].value()
                - shifted.zero_point[0].value() == input.buffer[i][k].value()
                - input.zero_point[0].value(),
        ({
            let sum = accumulate::total(fully_connected::column(weights, j), INPUT_COLS as nat)
                - INPUT_COLS * quantize::per_channel(weights.zero_point@, j).value();
            &&& corrections[0][j] == input.zero_point[0].value() * sum
            &&& shifted_corrections[0][j] == shifted.zero_point[0].value() * sum
        }),
    ensures
        fully_connected::accumulator(shifted, weights, shifted_corrections, i, j)
            == fully_connected::accumulator(input, weights, corrections, i, j),
{
    law_accumulator_is_the_centered_product(input, weights, corrections, i, j);
    law_accumulator_is_the_centered_product(shifted, weights, shifted_corrections, i, j);
    assert(less(fully_connected::row(shifted, i), shifted.zero_point[0].value()) =~= less(
        fully_connected::row(input, i),
        input.zero_point[0].value(),
    ));
}

/// Weights whose channels share one zero point accumulate as if it were
/// given once for all of them.
pub proof fn law_equal_channels_accumulate_as_one<
    T: Quantized,
    S,
    const INPUT_ROWS: usize,
    const INPUT_COLS: usize,
    const WEIGHTS_COLS: usize,
    const WEIGHTS_QUANTS: usize,
>(
    input: Tensor2D<T, S, INPUT_ROWS, INPUT_COLS, 1>,
    per_tensor: Tensor2D<T, S, INPUT_COLS, WEIGHTS_COLS, 1>,
    per_channel: Tensor2D<T, S, INPUT_COLS, WEIGHTS_COLS, WEIGHTS_QUANTS>,
    corrections: Buffer2D<i32, 1, WEIGHTS_COLS>,
    i: int,
    j: int,
)
    requires
        0 <= j < WEIGHTS_COLS,
        WEIGHTS_QUANTS > 0,
        per_channel.buffer == per_tensor.buffer,
        forall|q: int|
            0 <= q < WEIGHTS_QUANTS ==> #[trigger] per_channel.zero_point[q]
                == per_tensor.zero_point[0],
    ensures
        fully_connected::accumulator(input, per_channel, corrections, i, j)
            == fully_connected::accumulator(input, per_tensor, corrections, i, j),
        fully_connected::accumulator_fits(input, per_channel, corrections, i, j)
            == fully_connected::accumulator_fits(input, per_tensor, corrections, i, j),
{
    assert(quantize::per_channel(per_channel.zero_point@, j) == per_tensor.zero_point[0]) by {
        if j < WEIGHTS_QUANTS {
            assert(per_channel.zero_point[j] == per_tensor.zero_point[0]);
        } else {
            assert(per_channel.zero_point[0] == per_tensor.zero_point[0]);
        }
    }
    assert(fully_connected::column(per_channel, j) =~= fully_connected::column(per_tensor, j));
}

/// The sum of bounded values is bounded.
proof fn lemma_total_bound(a: Seq<int>, bound: int, n: nat)
    requires
        forall|i: int| 0 <= i < n ==> -bound <= #[trigger] a[i] <= bound,
    ensures
        -(n * bound) <= accumulate::total(a, n) <= n * bound,
    decreases n,
{
    if n > 0 {
        lemma_total_bound(a, bound, (n - 1) as nat);
        assert(n * bound == (n - 1) * bound + bound) by (nonlinear_arith);
    }
}

/// The accumulator of a layer that is small enough never overflows, whatever
/// its input: every product is at most 255 times 255.
pub proof fn law_small_layers_fit<
    T: Quantized,
    S,
    const INPUT_ROWS: usize,
    const INPUT_COLS: usize,
    const WEIGHTS_COLS: usize,
    const WEIGHTS_QUANTS: usize,
>(
    input: Tensor2D<T, S, INPUT_ROWS, INPUT_COLS, 1>,
    weights: Tensor2D<T, S, INPUT_COLS, WEIGHTS_COLS, WEIGHTS_QUANTS>,
    corrections: Buffer2D<i32, 1, WEIGHTS_COLS>,
    i: int,
    j: int,
)
    requires
        0 <= i < INPUT_ROWS,
        0 <= j < WEIGHTS_COLS,
        2 * (INPUT_COLS * 65025) <= i32::MAX,
        2 * (INPUT_COLS * 65025) - corrections[0][j] <= i32::MAX,
        i32::MIN <= -(2 * (INPUT_COLS * 65025)) - corrections[0][j],
    ensures
        fully_connected::accumulator_fits(input, weights, corrections, i, j),
        accumulate::total_fits(fully_connected::row(input, i), INPUT_COLS as nat),
{
    let x = fully_connected::row(input, i);
    let w = fully_connected::column(weights, j);
    let zero_point = quantize::per_channel(weights.zero_point@, j);
    let z = zero_point.value();
    zero_point.range(zero_point);
    assert forall|k: int| 0 <= k < INPUT_COLS implies -255 <= #[trigger] x[k] <= 255 by {
        input.buffer[i][k].range(zero_point);
    }
    assert forall|k: int| 0 <= k < INPUT_COLS implies -255 <= #[trigger] w[k] <= 255 by {
        weights.buffer[k][j].range(zero_point);
    }
    assert forall|k: nat| k <= INPUT_COLS implies accumulate::fits(
        0 + #[trigger] accumulate::dot(x, w, k),
    ) by {
        accumulate::lemma_dot_bound(x, w, 255, k);
    }
    assert forall|k: nat| k <= INPUT_COLS implies accumulate::fits(
        #[trigger] accumulate::total(x, k),
    ) by {
        lemma_total_bound(x, 255, k);
    }
    accumulate::lemma_dot_bound(x, w, 255, INPUT_COLS as nat);
    lemma_total_bound(x, 255, INPUT_COLS as nat);
    let sum = accumulate::total(x, INPUT_COLS as nat);
    let n = INPUT_COLS as int;
    assert(-(n * 65025) <= z * sum <= n * 65025) by (nonlinear_arith)
        requires
            -255 <= z <= 255,
            -(n * 255) <= sum <= n * 255,
            n >= 0,
    ;
}

/// An accumulator gives one output, if the arithmetic on scales gives one
/// result: the same input yields the same output every time.
pub proof fn law_output_is_determined<
    T: Quantized,
    S,
    R: Fn(S, S, i32, T) -> T,
    X: Fn(S, T) -> T,
>(
    requantize: R,
    quantize_six: X,
    bias: S,
    multiplier: S,
    output_scale: S,
    zero_point: T,
    function: FusedActivation,
    sum: i32,
    a: T,
    b: T,
)
    requires
        forall|x: T, y: T|
            #[trigger] call_ensures(requantize, (bias, multiplier, sum, zero_point), x)
                && #[trigger] call_ensures(requantize, (bias, multiplier, sum, zero_point), y)
                ==> x == y,
        forall|x: T, y: T|
            #[trigger] call_ensures(quantize_six, (output_scale, zero_point), x)
                && #[trigger] call_ensures(quantize_six, (output_scale, zero_point), y) ==> x == y,
        fully_connected::requantized(
            requantize,
            quantize_six,
            bias,
            multiplier,
            output_scale,
            zero_point,
            function,
            sum,
            a,
        ),
        fully_connected::requantized(
            requantize,
            quantize_six,
            bias,
            multiplier,
            output_scale,
            zero_point,
            function,
            sum,
            b,
        ),
    ensures
        a == b,
{
    let value = choose|value: T|
        {
            &&& #[trigger] call_ensures(requantize, (bias, multiplier, sum, zero_point), value)
            &&& activation::activated(
                function,
                quantize_six,
                output_scale,
                zero_point,
                value,
                a,
            )
        };
    activation::law_activation_is_determined(
        function,
        quantize_six,
        output_scale,
        zero_point,
        value,
        a,
        b,
    );
}

} // verus!
