//! Activation functions fused into an operator.
use crate::quantize::Quantized;
use vstd::prelude::*;

verus! {

/// The activation function fused into an operator.
#[derive(Clone, Copy, Debug, PartialEq, Eq, Structural)]
pub enum FusedActivation {
    /// No activation function.
    Linear,
    /// Rectified linear unit.
    Relu,
    /// Rectified linear unit capped at six.
    Relu6,
}

/// The larger of a value and the zero point.
pub open spec fn rectified<T: Quantized>(input: T, zero_point: T) -> T {
    if input.value() < zero_point.value() {
        zero_point
    } else {
        input
    }
}

/// A rectified value, capped at the quantized six.
pub open spec fn rectified_6<T: Quantized>(input: T, six: T, zero_point: T) -> T {
    let lower = rectified(input, zero_point);
    if six.value() < lower.value() {
        six
    } else {
        lower
    }
}

/// The rectified linear unit in quantized coordinates.
pub fn relu<T: Quantized>(input: T, zero_point: T) -> (r: T)
    ensures
        r == rectified(input, zero_point),
{
    if input.to_i32() < zero_point.to_i32() {
        zero_point
    } else {
        input
    }
}

/// The rectified linear unit capped at six in quantized coordinates, where
/// `six` is the quantized value of six.
pub fn relu6<T: Quantized>(input: T, six: T, zero_point: T) -> (r: T)
    ensures
        r == rectified_6(input, six, zero_point),
{
    let lower = relu(input, zero_point);
    if six.to_i32() < lower.to_i32() {
        six
    } else {
        lower
    }
}

/// What the fused activation function makes of a value, where
/// `quantize_six` quantizes six with a scale and a zero point.
pub open spec fn activated<T: Quantized, S, X: Fn(S, T) -> T>(
    function: FusedActivation,
    quantize_six: X,
    scale: S,
    zero_point: T,
    input: T,
    output: T,
) -> bool {
    match function {
        FusedActivation::Linear => output == input,
        FusedActivation::Relu => output == rectified(input, zero_point),
        FusedActivation::Relu6 => exists|six: T|
            call_ensures(quantize_six, (scale, zero_point), six) && output == #[trigger] rectified_6(
                input,
                six,
                zero_point,
            ),
    }
}

/// Applies the fused activation function to a value.
pub fn activate<T: Quantized, S, X: Fn(S, T) -> T>(
    function: FusedActivation,
    quantize_six: &X,
    scale: S,
    zero_point: T,
    input: T,
) -> (r: T)
    requires
        function is Relu6 ==> call_requires(*quantize_six, (scale, zero_point)),
    ensures
        activated(function, *quantize_six, scale, zero_point, input, r),
{
    match function {
        FusedActivation::Linear => input,
        FusedActivation::Relu => relu(input, zero_point),
        FusedActivation::Relu6 => relu6(input, quantize_six(scale, zero_point), zero_point),
    }
}

/// Rectifying twice is rectifying once.
pub proof fn law_relu_idempotent<T: Quantized>(input: T, zero_point: T)
    ensures
        rectified(rectified(input, zero_point), zero_point) == rectified(input, zero_point),
{
}

/// A rectified value is the maximum of the value and the zero point.
pub proof fn law_relu_is_the_maximum<T: Quantized>(input: T, zero_point: T)
    ensures
        rectified(input, zero_point).value() >= zero_point.value(),
        rectified(input, zero_point).value() >= input.value(),
        rectified(input, zero_point) == input || rectified(input, zero_point) == zero_point,
{
}

/// A value rectified and capped stays between the zero point and the
/// quantized six.
pub proof fn law_relu6_stays_in_range<T: Quantized>(input: T, six: T, zero_point: T)
    requires
        zero_point.value() <= six.value(),
    ensures
        zero_point.value() <= rectified_6(input, six, zero_point).value() <= six.value(),
        zero_point.value() <= input.value() <= six.value() ==> rectified_6(input, six, zero_point)
            == input,
{
}

/// A rectified output never lies below the zero point.
pub proof fn law_rectified_output_is_at_least_the_zero_point<T: Quantized, S, X: Fn(S, T) -> T>(
    function: FusedActivation,
    quantize_six: X,
    scale: S,
    zero_point: T,
    input: T,
    output: T,
)
    requires
        activated(function, quantize_six, scale, zero_point, input, output),
        function !is Linear,
        forall|six: T|
            call_ensures(quantize_six, (scale, zero_point), six) ==> zero_point.value()
                <= #[trigger] six.value(),
    ensures
        zero_point.value() <= output.value(),
{
    if function is Relu6 {
        let six = choose|six: T|
            call_ensures(quantize_six, (scale, zero_point), six) && output
                == #[trigger] rectified_6(input, six, zero_point);
        assert(zero_point.value() <= six.value());
    }
}

/// An activation function gives one output, if six is quantized to one
/// value.
pub proof fn law_activation_is_determined<T: Quantized, S, X: Fn(S, T) -> T>(
    function: FusedActivation,
    quantize_six: X,
    scale: S,
    zero_point: T,
    input: T,
    a: T,
    b: T,
)
    requires
        forall|x: T, y: T|
            #[trigger] call_ensures(quantize_six, (scale, zero_point), x)
                && #[trigger] call_ensures(quantize_six, (scale, zero_point), y) ==> x == y,
        activated(function, quantize_six, scale, zero_point, input, a),
        activated(function, quantize_six, scale, zero_point, input, b),
    ensures
        a == b,
{
}

/// What each activation function makes of a value, in numbers: no function
/// leaves it as it is; ReLU takes the larger of the value and the zero point;
/// ReLU6 takes that, or the quantized six where it is smaller.
pub proof fn law_activation_values<T: Quantized, S, X: Fn(S, T) -> T>(
    function: FusedActivation,
    quantize_six: X,
    scale: S,
    zero_point: T,
    input: T,
    output: T,
)
    requires
        activated(function, quantize_six, scale, zero_point, input, output),
    ensures
        function is Linear ==> output == input,
        function is Relu ==> {
            &&& output.value() >= zero_point.value()
            &&& output.value() >= input.value()
            &&& output == input || output == zero_point
        },
        function is Relu6 ==> exists|six: T|
            {
                &&& #[trigger] call_ensures(quantize_six, (scale, zero_point), six)
                &&& output.value() <= six.value()
                &&& output == input || output == zero_point || output == six
                &&& input.value() <= output.value() || output == six
                &&& zero_point.value() <= output.value() || output == six
                &&& output.value() <= input.value() || output.value() <= zero_point.value()
            },
{
    if function is Relu6 {
        let six = choose|six: T|
            call_ensures(quantize_six, (scale, zero_point), six) && output
                == #[trigger] rectified_6(input, six, zero_point);
        assert(call_ensures(quantize_six, (scale, zero_point), six));
    }
}

} // verus!
