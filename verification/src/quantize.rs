//! Quantized element types and their integer values.
use simba::scalar::SupersetOf;
use vstd::prelude::*;

verus! {

/// The value of an `i8` as an `i32`, taken from simba's
/// `SupersetOf<i8> for i32`: its `from_subset` embeds every `i8` unchanged.
#[verifier::external_body]
fn i32_from_i8(value: &i8) -> (r: i32)
    ensures
        r == *value,
{
    <i32 as SupersetOf<i8>>::from_subset(value)
}

/// The value of a `u8` as an `i32`, taken from simba's
/// `SupersetOf<u8> for i32`: its `from_subset` embeds every `u8` unchanged.
#[verifier::external_body]
fn i32_from_u8(value: &u8) -> (r: i32)
    ensures
        r == *value,
{
    <i32 as SupersetOf<u8>>::from_subset(value)
}

/// An eight-bit element type of a quantized tensor.
pub trait Quantized: Copy {
    /// The least value of the type.
    spec fn lowest() -> int;

    /// The integer that an element holds.
    spec fn value(self) -> int;

    /// The integer that an element holds.
    fn to_i32(self) -> (r: i32)
        ensures
            r == self.value(),
            -128 <= r <= 255,
    ;

    /// An element lies in the 256 values of its type, and two elements with
    /// the same value are the same.
    proof fn range(self, other: Self)
        ensures
            -128 <= Self::lowest() <= self.value() <= Self::lowest() + 255 <= 255,
            self.value() == other.value() ==> self == other,
    ;
}

impl Quantized for i8 {
    open spec fn lowest() -> int {
        -128
    }

    open spec fn value(self) -> int {
        self as int
    }

    fn to_i32(self) -> (r: i32) {
        i32_from_i8(&self)
    }

    proof fn range(self, other: Self) {
    }
}

impl Quantized for u8 {
    open spec fn lowest() -> int {
        0
    }

    open spec fn value(self) -> int {
        self as int
    }

    fn to_i32(self) -> (r: i32) {
        i32_from_u8(&self)
    }

    proof fn range(self, other: Self) {
    }
}

/// The parameter of one channel: its own one where there is one, else the
/// first, which stands for the whole tensor.
pub open spec fn per_channel<A>(values: Seq<A>, channel: int) -> A {
    if channel < values.len() {
        values[channel]
    } else {
        values[0]
    }
}

/// Picks the parameter of one channel.
pub fn channel_parameter<A: Copy, const QUANTS: usize>(
    values: &[A; QUANTS],
    channel: usize,
) -> (r: A)
    requires
        QUANTS > 0,
    ensures
        r == per_channel(values@, channel as int),
{
    if channel < QUANTS {
        values[channel]
    } else {
        values[0]
    }
}

/// Equal parameters on every channel say the same as one for the tensor.
pub proof fn law_equal_channels_are_per_tensor<A>(values: Seq<A>, value: A, channel: int)
    requires
        values.len() > 0,
        0 <= channel,
        forall|i: int| 0 <= i < values.len() ==> #[trigger] values[i] == value,
    ensures
        per_channel(values, channel) == per_channel(seq![value], channel),
{
}

/// A channel with a parameter of its own has that one; any other has the
/// first.
pub proof fn law_channels_have_their_own_parameter<A>(values: Seq<A>, channel: int)
    ensures
        0 <= channel < values.len() ==> per_channel(values, channel) == values[channel],
        channel >= values.len() ==> per_channel(values, channel) == values[0],
{
}

/// The value of an element is the number that it is, from the least number
/// of its type on.
pub proof fn law_elements_are_numbers(signed: i8, unsigned: u8)
    ensures
        signed.value() == signed,
        unsigned.value() == unsigned,
        i8::lowest() == i8::MIN,
        u8::lowest() == u8::MIN,
{
}

} // verus!
