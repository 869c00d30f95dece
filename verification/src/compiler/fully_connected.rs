//! Fully connected layers, as the compiler builds them.
use crate::activation::FusedActivation;
use crate::compiler::tensor;
use crate::compiler::tensor::{channel_entry, zero_bias, TokenTensor2D};
use crate::ops::accumulate;
use crate::quantize;
use crate::quantize::Quantized;
use vstd::prelude::*;

verus! {

/// The values of a column.
pub open spec fn values<T: Quantized>(column: Seq<T>) -> Seq<int> {
    Seq::new(column.len(), |k: int| column[k].value())
}

/// The sum of the weights of output `j`, less the zero point of each of the
/// `rows` inputs.
pub open spec fn centered_sum<T: Quantized, S>(weights: TokenTensor2D<T, S>, j: int) -> int {
    let column = weights.buffer@[j]@;
    accumulate::total(values(column), column.len()) - (weights.shape@[0] as i32)
        * quantize::per_channel(weights.zero_point@, j).value()
}

/// The zero-point correction of output `j`:
/// `zp_x * (sum_i w[i][j] - INPUT_COLS * zp_w[j])`.
pub open spec fn correction<T: Quantized, S>(
    input: TokenTensor2D<T, S>,
    weights: TokenTensor2D<T, S>,
    j: int,
) -> int {
    input.zero_point@[0].value() * centered_sum(weights, j)
}

/// Whether the zero-point correction of output `j` can be computed: its
/// weights and zero points are there, and every intermediate value can be
/// held.
pub open spec fn correction_defined<T: Quantized, S>(
    input: TokenTensor2D<T, S>,
    weights: TokenTensor2D<T, S>,
    j: int,
) -> bool {
    &&& weights.zero_point@.len() > 0
    &&& input.zero_point@.len() > 0
    &&& j < weights.buffer@.len()
    &&& accumulate::total_fits(values(weights.buffer@[j]@), weights.buffer@[j]@.len())
    &&& accumulate::fits(
        (weights.shape@[0] as i32) * quantize::per_channel(weights.zero_point@, j).value(),
    )
    &&& accumulate::fits(centered_sum(weights, j))
    &&& accumulate::fits(correction(input, weights, j))
}

/// The bias of output `j`, less its zero point.
pub open spec fn centered_bias<S>(biases: TokenTensor2D<i32, S>, j: int) -> int {
    biases.buffer@[0]@[j] - quantize::per_channel(biases.zero_point@, j)
}

/// Whether the bias of output `j` can be centered: it is there with its zero
/// point, and the difference can be held.
pub open spec fn bias_defined<S>(biases: TokenTensor2D<i32, S>, j: int) -> bool {
    &&& biases.zero_point@.len() > 0
    &&& biases.buffer@.len() > 0
    &&& j < biases.buffer@[0]@.len()
    &&& accumulate::fits(centered_bias(biases, j))
}

/// Whether the integer constants of output `j` can be computed.
pub open spec fn output_defined<T: Quantized, S>(
    input: TokenTensor2D<T, S>,
    weights: TokenTensor2D<T, S>,
    biases: TokenTensor2D<i32, S>,
    j: int,
) -> bool {
    bias_defined(biases, j) && correction_defined(input, weights, j)
}

/// Whether the constants of a layer can be computed.
pub open spec fn preprocess_defined<T: Quantized, S>(
    input: TokenTensor2D<T, S>,
    weights: TokenTensor2D<T, S>,
    biases: TokenTensor2D<i32, S>,
    output: TokenTensor2D<T, S>,
) -> bool {
    &&& weights.shape@.len() >= 2
    &&& weights.shape@[1] > 0 ==> {
        &&& biases.scale@.len() > 0
        &&& input.scale@.len() > 0
        &&& weights.scale@.len() > 0
        &&& output.scale@.len() > 0
    }
    &&& forall|j: int|
        0 <= j < weights.shape@[1] ==> #[trigger] output_defined(input, weights, biases, j)
}

/// The operations on scales that the compiler is given.
pub struct Arithmetic<B, M> {
    /// A centered bias, rescaled from the scale of the bias to the scale of
    /// the output.
    pub bias_term: B,
    /// The multiplier of the scales of the input, the weights and the
    /// output.
    pub multiplier: M,
}

/// Whether the constants of a layer are those of output `j` throughout: the
/// bias term, the multiplier and the zero-point correction.
pub open spec fn are_constants<
    T: Quantized,
    S,
    B: Fn(i32, S, S) -> S,
    M: Fn(S, S, S) -> S,
>(
    constants: (Vec<S>, Vec<S>, Vec<i32>),
    input: TokenTensor2D<T, S>,
    weights: TokenTensor2D<T, S>,
    biases: TokenTensor2D<i32, S>,
    output: TokenTensor2D<T, S>,
    arithmetic: Arithmetic<B, M>,
) -> bool {
    &&& constants.0@.len() == weights.shape@[1]
    &&& constants.1@.len() == weights.shape@[1]
    &&& constants.2@.len() == weights.shape@[1]
    &&& forall|j: int|
        0 <= j < weights.shape@[1] ==> call_ensures(
            arithmetic.bias_term,
            (
                centered_bias(biases, j) as i32,
                quantize::per_channel(biases.scale@, j),
                output.scale@[0],
            ),
            #[trigger] constants.0@[j],
        )
    &&& forall|j: int|
        0 <= j < weights.shape@[1] ==> call_ensures(
            arithmetic.multiplier,
            (input.scale@[0], quantize::per_channel(weights.scale@, j), output.scale@[0]),
            #[trigger] constants.1@[j],
        )
    &&& forall|j: int|
        0 <= j < weights.shape@[1] ==> #[trigger] constants.2@[j] == correction(
            input,
            weights,
            j,
        )
}

/// Adds up a column, `None` where the sum overflows.
fn checked_column_sum<T: Quantized>(column: &[T]) -> (r: Option<i32>)
    ensures
        r is Some <==> accumulate::total_fits(values(column@), column@.len()),
        r matches Some(sum) ==> sum == accumulate::total(values(column@), column@.len()),
{
    let ghost all = values(column@);
    let mut sum: i32 = 0;
    let mut k: usize = 0;
    #[verifier::loop_isolation(false)]
    while k < column.len()
        invariant
            k <= column@.len(),
            sum == accumulate::total(all, k as nat),
            accumulate::total_fits(all, k as nat),
        decreases column.len() - k,
    {
        let value: i32 = column[k].to_i32();
        assert(accumulate::total(all, (k + 1) as nat) == sum + value);
        match sum.checked_add(value) {
            Some(next) => {
                sum = next;
            },
            None => {
                assert(!accumulate::fits(accumulate::total(all, (k + 1) as nat)));
                return None;
            },
        }
        k += 1;
    }
    Some(sum)
}

/// Computes the zero-point correction of output `j`, `None` where it cannot
/// be computed.
pub fn checked_correction<T: Quantized, S>(
    input: &TokenTensor2D<T, S>,
    weights: &TokenTensor2D<T, S>,
    j: usize,
) -> (r: Option<i32>)
    requires
        weights.shape@.len() > 0,
    ensures
        r is Some <==> correction_defined(*input, *weights, j as int),
        r matches Some(value) ==> value == correction(*input, *weights, j as int),
{
    if weights.zero_point.len() == 0 || input.zero_point.len() == 0 || j >= weights.buffer.len() {
        return None;
    }
    let zero_point: i32 = channel_entry(weights.zero_point.as_slice(), j).to_i32();
    let input_zero_point: i32 = input.zero_point[0].to_i32();
    let rows: i32 = #[verifier::truncate]
    (weights.shape[0] as i32);
    match checked_column_sum(weights.buffer[j].as_slice()) {
        Some(sum) => match rows.checked_mul(zero_point) {
            Some(product) => match sum.checked_sub(product) {
                Some(centered) => input_zero_point.checked_mul(centered),
                None => None,
            },
            None => None,
        },
        None => None,
    }
}

/// Centers the bias of output `j`, `None` where it cannot be computed.
fn checked_centered_bias<S>(biases: &TokenTensor2D<i32, S>, j: usize) -> (r: Option<i32>)
    ensures
        r is Some <==> bias_defined(*biases, j as int),
        r matches Some(value) ==> value == centered_bias(*biases, j as int),
{
    if biases.zero_point.len() == 0 || biases.buffer.len() == 0 || j >= biases.buffer[0].len() {
        return None;
    }
    let zero_point: i32 = channel_entry(biases.zero_point.as_slice(), j);
    biases.buffer[0][j].checked_sub(zero_point)
}

/// A fully connected layer, ready to be emitted.
#[derive(Debug, PartialEq, Eq)]
pub struct TokenFullyConnected<T, S> {
    pub weights: TokenTensor2D<T, S>,
    pub output: TokenTensor2D<T, S>,
    pub fused_activation: FusedActivation,
    pub constants: (Vec<S>, Vec<S>, Vec<i32>),
    pub index: usize,
}

/// Whether a layer can be built of the given parts, where a dropped bias is
/// restored.
pub open spec fn layer_defined<T: Quantized, S>(
    input: TokenTensor2D<T, S>,
    weights: TokenTensor2D<T, S>,
    biases: Option<TokenTensor2D<i32, S>>,
    output: TokenTensor2D<T, S>,
) -> bool {
    match biases {
        Some(given) => preprocess_defined(input, weights, given, output),
        None => {
            &&& weights.shape@.len() >= 2
            &&& weights.shape@[1] > 0 ==> {
                &&& input.scale@.len() > 0
                &&& weights.scale@.len() > 0
                &&& output.scale@.len() > 0
            }
            &&& forall|j: int|
                0 <= j < weights.shape@[1] ==> #[trigger] correction_defined(input, weights, j)
        },
    }
}

/// A zero bias leaves every constant defined that the weights leave defined.
proof fn lemma_zero_bias_defined<T: Quantized, S>(
    input: TokenTensor2D<T, S>,
    weights: TokenTensor2D<T, S>,
    zeros: TokenTensor2D<i32, S>,
    output: TokenTensor2D<T, S>,
    one: S,
)
    requires
        weights.shape@.len() >= 2,
        tensor::is_zero_bias(zeros, weights.shape@[1] as nat, one),
    ensures
        preprocess_defined(input, weights, zeros, output) == layer_defined(
            input,
            weights,
            None,
            output,
        ),
{
    assert forall|j: int| 0 <= j < weights.shape@[1] implies bias_defined(zeros, j) by {
        assert(zeros.buffer@[0]@[j] == 0);
    }
    if preprocess_defined(input, weights, zeros, output) {
        assert forall|j: int|
            0 <= j < weights.shape@[1] implies #[trigger] correction_defined(
            input,
            weights,
            j,
        ) by {
            assert(output_defined(input, weights, zeros, j));
        }
    }
}

/// Whether a layer is the operator built of the given parts, where a dropped
/// bias is restored.
pub open spec fn is_layer<T: Quantized, S, B: Fn(i32, S, S) -> S, M: Fn(S, S, S) -> S>(
    layer: TokenFullyConnected<T, S>,
    input: TokenTensor2D<T, S>,
    weights: TokenTensor2D<T, S>,
    biases: Option<TokenTensor2D<i32, S>>,
    output: TokenTensor2D<T, S>,
    fused_activation: FusedActivation,
    index: usize,
    one: S,
    arithmetic: Arithmetic<B, M>,
) -> bool {
    &&& layer.weights == weights
    &&& layer.output == output
    &&& layer.fused_activation == fused_activation
    &&& layer.index == index
    &&& match biases {
        Some(given) => are_constants(
            layer.constants,
            input,
            weights,
            given,
            output,
            arithmetic,
        ),
        None => exists|zeros: TokenTensor2D<i32, S>|
            #[trigger] tensor::is_zero_bias(zeros, weights.shape@[1] as nat, one)
                && are_constants(layer.constants, input, weights, zeros, output, arithmetic),
    }
}

impl<T: Quantized, S: Copy> TokenFullyConnected<T, S> {
    /// Computes the constants of a layer, one entry per output unit: the
    /// bias term, scaled to the output scale; the multiplier; the zero-point
    /// correction. `None` where a weight, a bias, a scale or a zero point is
    /// missing, or a value overflows.
    pub fn checked_preprocess<B: Fn(i32, S, S) -> S, M: Fn(S, S, S) -> S>(
        input: &TokenTensor2D<T, S>,
        weights: &TokenTensor2D<T, S>,
        biases: &TokenTensor2D<i32, S>,
        output: &TokenTensor2D<T, S>,
        arithmetic: &Arithmetic<B, M>,
    ) -> (r: Option<(Vec<S>, Vec<S>, Vec<i32>)>)
        requires
            forall|bias: i32, from: S, to: S|
                call_requires(arithmetic.bias_term, (bias, from, to)),
            forall|x: S, w: S, y: S| call_requires(arithmetic.multiplier, (x, w, y)),
        ensures
            r is Some <==> preprocess_defined(*input, *weights, *biases, *output),
            r matches Some(constants) ==> are_constants(
                constants,
                *input,
                *weights,
                *biases,
                *output,
                *arithmetic,
            ),
    {
        if weights.shape.len() < 2 {
            return None;
        }
        let cols: usize = weights.shape[1];
        let mut terms: Vec<S> = Vec::new();
        let mut multipliers: Vec<S> = Vec::new();
        let mut corrections: Vec<i32> = Vec::new();
        if cols > 0 {
            if biases.scale.len() == 0 || input.scale.len() == 0 || weights.scale.len() == 0
                || output.scale.len() == 0 {
                return None;
            }
            let mut j: usize = 0;
            #[verifier::loop_isolation(false)]
            while j < cols
                invariant
                    j <= cols,
                    terms@.len() == j,
                    multipliers@.len() == j,
                    corrections@.len() == j,
                    forall|q: int|
                        0 <= q < j ==> #[trigger] output_defined(*input, *weights, *biases, q),
                    forall|q: int|
                        0 <= q < j ==> call_ensures(
                            arithmetic.bias_term,
                            (
                                centered_bias(*biases, q) as i32,
                                quantize::per_channel(biases.scale@, q),
                                output.scale@[0],
                            ),
                            #[trigger] terms@[q],
                        ),
                    forall|q: int|
                        0 <= q < j ==> call_ensures(
                            arithmetic.multiplier,
                            (
                                input.scale@[0],
                                quantize::per_channel(weights.scale@, q),
                                output.scale@[0],
                            ),
                            #[trigger] multipliers@[q],
                        ),
                    forall|q: int|
                        0 <= q < j ==> #[trigger] corrections@[q] == correction(
                            *input,
                            *weights,
                            q,
                        ),
                decreases cols - j,
            {
                match (checked_centered_bias(biases, j), checked_correction(input, weights, j)) {
                    (Some(bias), Some(correction)) => {
                        let scale_b: S = channel_entry(biases.scale.as_slice(), j);
                        let scale_w: S = channel_entry(weights.scale.as_slice(), j);
                        terms.push((arithmetic.bias_term)(bias, scale_b, output.scale[0]));
                        multipliers.push(
                            (arithmetic.multiplier)(input.scale[0], scale_w, output.scale[0]),
                        );
                        corrections.push(correction);
                    },
                    _ => {
                        assert(!output_defined(*input, *weights, *biases, j as int));
                        return None;
                    },
                }
                j += 1;
            }
        }
        Some((terms, multipliers, corrections))
    }

    /// Computes the constants of a layer, one entry per output unit: the
    /// bias term, scaled to the output scale; the multiplier; the zero-point
    /// correction.
    pub fn preprocess<B: Fn(i32, S, S) -> S, M: Fn(S, S, S) -> S>(
        input: &TokenTensor2D<T, S>,
        weights: &TokenTensor2D<T, S>,
        biases: &TokenTensor2D<i32, S>,
        output: &TokenTensor2D<T, S>,
        arithmetic: &Arithmetic<B, M>,
    ) -> (constants: (Vec<S>, Vec<S>, Vec<i32>))
        requires
            preprocess_defined(*input, *weights, *biases, *output),
            forall|bias: i32, from: S, to: S|
                call_requires(arithmetic.bias_term, (bias, from, to)),
            forall|x: S, w: S, y: S| call_requires(arithmetic.multiplier, (x, w, y)),
        ensures
            are_constants(constants, *input, *weights, *biases, *output, *arithmetic),
    {
        Self::checked_preprocess(input, weights, biases, output, arithmetic).unwrap()
    }

    /// Builds the operator from the tensors of the model, where a dropped
    /// bias is restored: `None` where its constants cannot be computed.
    pub fn checked_new<B: Fn(i32, S, S) -> S, M: Fn(S, S, S) -> S>(
        input: &TokenTensor2D<T, S>,
        weights: TokenTensor2D<T, S>,
        biases: Option<TokenTensor2D<i32, S>>,
        output: TokenTensor2D<T, S>,
        fused_activation: FusedActivation,
        index: usize,
        one: S,
        arithmetic: &Arithmetic<B, M>,
    ) -> (r: Option<Self>)
        requires
            forall|bias: i32, from: S, to: S|
                call_requires(arithmetic.bias_term, (bias, from, to)),
            forall|x: S, w: S, y: S| call_requires(arithmetic.multiplier, (x, w, y)),
        ensures
            r is Some <==> layer_defined(*input, weights, biases, output),
            r matches Some(layer) ==> is_layer(
                layer,
                *input,
                weights,
                biases,
                output,
                fused_activation,
                index,
                one,
                *arithmetic,
            ),
    {
        if weights.shape.len() < 2 {
            return None;
        }
        let given: TokenTensor2D<i32, S> = match biases {
            Some(given) => given,
            None => zero_bias(weights.shape[1], one),
        };
        match Self::checked_preprocess(input, &weights, &given, &output, arithmetic) {
            Some(constants) => {
                proof {
                    if biases is None {
                        lemma_zero_bias_defined(*input, weights, given, output, one);
                        assert(tensor::is_zero_bias(given, weights.shape@[1] as nat, one));
                    }
                }
                Some(TokenFullyConnected { weights, output, fused_activation, constants, index })
            },
            None => {
                proof {
                    if biases is None {
                        lemma_zero_bias_defined(*input, weights, given, output, one);
                    }
                }
                None
            },
        }
    }

    /// Builds the operator from the tensors of the model, where a dropped
    /// bias is restored.
    pub fn new<B: Fn(i32, S, S) -> S, M: Fn(S, S, S) -> S>(
        input: &TokenTensor2D<T, S>,
        weights: TokenTensor2D<T, S>,
        biases: Option<TokenTensor2D<i32, S>>,
        output: TokenTensor2D<T, S>,
        fused_activation: FusedActivation,
        index: usize,
        one: S,
        arithmetic: &Arithmetic<B, M>,
    ) -> (layer: Self)
        requires
            layer_defined(*input, weights, biases, output),
            forall|bias: i32, from: S, to: S|
                call_requires(arithmetic.bias_term, (bias, from, to)),
            forall|x: S, w: S, y: S| call_requires(arithmetic.multiplier, (x, w, y)),
        ensures
            is_layer(
                layer,
                *input,
                weights,
                biases,
                output,
                fused_activation,
                index,
                one,
                *arithmetic,
            ),
    {
        Self::checked_new(
            input,
            weights,
            biases,
            output,
            fused_activation,
            index,
            one,
            arithmetic,
        ).unwrap()
    }
}

/// The constants of a per-channel layer whose channels share one zero point
/// are those of the per-tensor one.
pub proof fn law_equal_channels_correct_as_one<T: Quantized, S>(
    input: TokenTensor2D<T, S>,
    per_tensor: TokenTensor2D<T, S>,
    per_channel: TokenTensor2D<T, S>,
    j: int,
)
    requires
        0 <= j,
        per_channel.buffer == per_tensor.buffer,
        per_channel.shape == per_tensor.shape,
        per_tensor.zero_point@.len() == 1,
        per_channel.zero_point@.len() > 0,
        forall|q: int|
            0 <= q < per_channel.zero_point@.len() ==> #[trigger] per_channel.zero_point@[q]
                == per_tensor.zero_point@[0],
    ensures
        correction(input, per_channel, j) == correction(input, per_tensor, j),
        correction_defined(input, per_channel, j) == correction_defined(input, per_tensor, j),
{
    assert(quantize::per_channel(per_channel.zero_point@, j) == quantize::per_channel(
        per_tensor.zero_point@,
        j,
    ));
}

} // verus!
