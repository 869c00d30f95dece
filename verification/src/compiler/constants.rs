//! Constant INT32 tensors.
use crate::compiler::outcome;
use crate::compiler::schema;
use crate::compiler::schema::{tensor_shape, Buffer, Tensor};
use crate::compiler::shape;
use crate::compiler::shape::checked_product;
use vstd::prelude::*;

verus! {

/// Why a constant tensor cannot be read. `tensor` is the index of the tensor.
#[derive(Debug, Clone, Copy, PartialEq, Eq)]
pub enum ConstantError {
    /// The tensor has no buffer.
    NoBuffer { tensor: usize },
    /// The shape declares `expected` values, the buffer holds `found`.
    LengthMismatch { tensor: usize, expected: usize, found: usize },
    /// A scalar was expected, but there is no value.
    Empty { tensor: usize },
}

impl View for ConstantError {
    type V = ConstantError;

    open spec fn view(&self) -> ConstantError {
        *self
    }
}

/// The two's complement value of four little-endian bytes.
pub open spec fn le_value(b0: u8, b1: u8, b2: u8, b3: u8) -> int {
    let unsigned = b0 + 0x100 * b1 + 0x1_0000 * b2 + 0x100_0000 * b3;
    if b3 < 0x80 {
        unsigned
    } else {
        unsigned - 0x1_0000_0000
    }
}

/// The little-endian INT32 values that the bytes hold.
pub open spec fn le_values(bytes: Seq<u8>) -> Seq<i32> {
    Seq::new(
        bytes.len() / 4,
        |k: int|
            le_value(bytes[4 * k], bytes[4 * k + 1], bytes[4 * k + 2], bytes[4 * k + 3]) as i32,
    )
}

/// Outcome of reading the constant tensor `index`; `None` where the tensor or
/// its buffer does not exist or the declared element count overflows.
pub open spec fn constant(tensors: Seq<Tensor>, buffers: Seq<Buffer>, index: usize) -> Option<
    Result<Seq<i32>, ConstantError>,
> {
    if index >= tensors.len() {
        None
    } else {
        let shape = schema::shape_of(tensors[index as int]);
        let buffer = tensors[index as int].buffer;
        if !shape::count_fits(shape) || buffer >= buffers.len() {
            None
        } else {
            match buffers[buffer as int].data {
                None => Some(Err(ConstantError::NoBuffer { tensor: index })),
                Some(bytes) => if bytes@.len() == 4 * shape::count(shape) {
                    Some(Ok(le_values(bytes@)))
                } else {
                    Some(
                        Err(
                            ConstantError::LengthMismatch {
                                tensor: index,
                                expected: shape::count(shape) as usize,
                                found: (bytes@.len() / 4) as usize,
                            },
                        ),
                    )
                },
            }
        }
    }
}

/// Outcome of reading the first value of the constant tensor `index`.
pub open spec fn scalar_constant(
    tensors: Seq<Tensor>,
    buffers: Seq<Buffer>,
    index: usize,
) -> Option<Result<i32, ConstantError>> {
    match constant(tensors, buffers, index) {
        None => None,
        Some(Err(error)) => Some(Err(error)),
        Some(Ok(values)) => if values.len() == 0 {
            Some(Err(ConstantError::Empty { tensor: index }))
        } else {
            Some(Ok(values[0]))
        },
    }
}

/// Decodes four little-endian bytes.
fn le_i32(b0: u8, b1: u8, b2: u8, b3: u8) -> (value: i32)
    ensures
        value == le_value(b0, b1, b2, b3),
{
    let high: i32 = if b3 < 0x80 {
        b3 as i32
    } else {
        b3 as i32 - 0x100
    };
    b0 as i32 + 0x100 * (b1 as i32) + 0x1_0000 * (b2 as i32) + 0x100_0000 * high
}

/// Decodes the little-endian INT32 values that the bytes hold.
pub fn le_i32s(bytes: &[u8]) -> (values: Vec<i32>)
    ensures
        values@ == le_values(bytes@),
{
    let mut values: Vec<i32> = Vec::new();
    let count: usize = bytes.len() / 4;
    let mut k: usize = 0;
    while k < count
        invariant
            k <= count,
            count == bytes@.len() / 4,
            4 * count <= bytes.len(),
            values@ =~= le_values(bytes@).take(k as int),
        decreases count - k,
    {
        let at: usize = 4 * k;
        values.push(le_i32(bytes[at], bytes[at + 1], bytes[at + 2], bytes[at + 3]));
        k = k + 1;
    }
    values
}

/// Reads the INT32 little-endian constant buffer of a tensor, or returns
/// `None` where the tensor or its buffer does not exist or the declared
/// element count overflows.
pub fn checked_read_i32s(tensors: &[Tensor], buffers: &[Buffer], index: usize) -> (values: Option<
    Result<Vec<i32>, ConstantError>,
>)
    ensures
        outcome::view_of(values) == constant(tensors@, buffers@, index),
{
    if index >= tensors.len() {
        return None;
    }
    let tensor: &Tensor = &tensors[index];
    let shape: Vec<usize> = tensor_shape(tensor);
    let expected: usize = match checked_product(shape.as_slice()) {
        Some(expected) => expected,
        None => {
            return None;
        },
    };
    if tensor.buffer as usize >= buffers.len() {
        return None;
    }
    match &buffers[tensor.buffer as usize].data {
        None => Some(Err(ConstantError::NoBuffer { tensor: index })),
        Some(bytes) => {
            let found: usize = bytes.len() / 4;
            if bytes.len() % 4 != 0 || found != expected {
                Some(Err(ConstantError::LengthMismatch { tensor: index, expected, found }))
            } else {
                Some(Ok(le_i32s(bytes.as_slice())))
            }
        },
    }
}

/// Reads the INT32 little-endian constant buffer of a tensor.
pub fn read_i32s(tensors: &[Tensor], buffers: &[Buffer], index: usize) -> (values: Result<
    Vec<i32>,
    ConstantError,
>)
    requires
        constant(tensors@, buffers@, index) is Some,
    ensures
        outcome::view_of(Some(values)) == constant(tensors@, buffers@, index),
{
    checked_read_i32s(tensors, buffers, index).unwrap()
}

/// Reads the first value of an INT32 constant tensor, or returns `None` where
/// the tensor or its buffer does not exist or the declared element count
/// overflows.
pub fn checked_read_i32_scalar(
    tensors: &[Tensor],
    buffers: &[Buffer],
    index: usize,
) -> (value: Option<Result<i32, ConstantError>>)
    ensures
        value == scalar_constant(tensors@, buffers@, index),
{
    match checked_read_i32s(tensors, buffers, index) {
        None => None,
        Some(Err(error)) => Some(Err(error)),
        Some(Ok(values)) => {
            if values.len() == 0 {
                Some(Err(ConstantError::Empty { tensor: index }))
            } else {
                Some(Ok(values[0]))
            }
        },
    }
}

/// Reads the first value of an INT32 constant tensor.
pub fn read_i32_scalar(tensors: &[Tensor], buffers: &[Buffer], index: usize) -> (value: Result<
    i32,
    ConstantError,
>)
    requires
        scalar_constant(tensors@, buffers@, index) is Some,
    ensures
        Some(value) == scalar_constant(tensors@, buffers@, index),
{
    checked_read_i32_scalar(tensors, buffers, index).unwrap()
}

/// Byte `k` of the little-endian encoding of a value.
pub open spec fn le_byte(value: i32, k: int) -> u8 {
    let unsigned = if value < 0 {
        value + 0x1_0000_0000
    } else {
        value as int
    };
    if k == 0 {
        (unsigned % 0x100) as u8
    } else if k == 1 {
        (unsigned / 0x100 % 0x100) as u8
    } else if k == 2 {
        (unsigned / 0x1_0000 % 0x100) as u8
    } else {
        (unsigned / 0x100_0000) as u8
    }
}

/// The little-endian encoding of some values.
pub open spec fn le_bytes(values: Seq<i32>) -> Seq<u8> {
    Seq::new(4 * values.len(), |i: int| le_byte(values[i / 4], i % 4))
}

/// The four bytes of an encoding hold the value.
proof fn lemma_encoded_value(value: i32)
    ensures
        le_value(le_byte(value, 0), le_byte(value, 1), le_byte(value, 2), le_byte(value, 3))
            == value,
{
    let unsigned = if value < 0 {
        value + 0x1_0000_0000
    } else {
        value as int
    };
    let low = unsigned % 0x1_0000;
    let high = unsigned / 0x1_0000;
    assert(unsigned == 0x1_0000 * high + low);
    assert(low == 0x100 * (unsigned / 0x100 % 0x100) + unsigned % 0x100);
    assert(high == 0x100 * (unsigned / 0x100_0000) + high % 0x100);
}

/// Reading the little-endian encoding of some values gives them back.
pub proof fn law_encoded_values_read_back(values: Seq<i32>)
    ensures
        le_values(le_bytes(values)) == values,
{
    let bytes = le_bytes(values);
    assert forall|k: int| 0 <= k < values.len() implies le_values(bytes)[k] == values[k] by {
        let value = values[k];
        assert((4 * k) / 4 == k && (4 * k + 1) / 4 == k && (4 * k + 2) / 4 == k && (4 * k + 3) / 4
            == k);
        assert(bytes[4 * k] == le_byte(value, 0));
        assert(bytes[4 * k + 1] == le_byte(value, 1));
        assert(bytes[4 * k + 2] == le_byte(value, 2));
        assert(bytes[4 * k + 3] == le_byte(value, 3));
        lemma_encoded_value(value);
    }
    assert(le_values(bytes) =~= values);
}

/// Values that differ are read from bytes that differ: four bytes hold one
/// value, and no other four bytes hold it.
pub proof fn law_le_value_is_unique(
    a0: u8,
    a1: u8,
    a2: u8,
    a3: u8,
    b0: u8,
    b1: u8,
    b2: u8,
    b3: u8,
)
    requires
        le_value(a0, a1, a2, a3) == le_value(b0, b1, b2, b3),
    ensures
        a0 == b0,
        a1 == b1,
        a2 == b2,
        a3 == b3,
        i32::MIN <= le_value(a0, a1, a2, a3) <= i32::MAX,
{
}

/// What reading a constant tensor gives: its values where its buffer holds
/// four bytes for each element of its shape, encoded little-endian; otherwise
/// an error that names the tensor and what its buffer holds.
pub proof fn law_constants_are_read(tensors: Seq<Tensor>, buffers: Seq<Buffer>, index: usize)
    ensures
        ({
            let shape = schema::shape_of(tensors[index as int]);
            let data = buffers[tensors[index as int].buffer as int].data;
            match constant(tensors, buffers, index) {
                None => index >= tensors.len() || tensors[index as int].buffer >= buffers.len()
                    || !shape::count_fits(shape),
                Some(Ok(values)) => {
                    &&& data is Some
                    &&& values.len() == shape::count(shape)
                    &&& data->Some_0@ == le_bytes(values)
                },
                Some(Err(ConstantError::NoBuffer { tensor })) => tensor == index && data is None,
                Some(Err(ConstantError::LengthMismatch { tensor, expected, found })) => {
                    &&& tensor == index
                    &&& data is Some
                    &&& expected == shape::count(shape)
                    &&& 4 * expected != data->Some_0@.len()
                    &&& 4 * found <= data->Some_0@.len() < 4 * found + 4
                },
                Some(Err(ConstantError::Empty { .. })) => false,
            }
        }),
{
    let shape = schema::shape_of(tensors[index as int]);
    let data = buffers[tensors[index as int].buffer as int].data;
    assert(shape.take(shape.len() as int) =~= shape);
    if let Some(Ok(values)) = constant(tensors, buffers, index) {
        law_read_values_encode_back(data->Some_0@);
    }
    if let Some(bytes) = data {
        assert(bytes.len() == bytes@.len());
    }
}

/// Encoding what was read from whole values gives back the bytes.
pub proof fn law_read_values_encode_back(bytes: Seq<u8>)
    requires
        bytes.len() % 4 == 0,
    ensures
        le_bytes(le_values(bytes)) == bytes,
{
    let values = le_values(bytes);
    assert forall|i: int| 0 <= i < bytes.len() implies #[trigger] le_bytes(values)[i]
        == bytes[i] by {
        let k = i / 4;
        assert(0 <= k < values.len() && i == 4 * k + i % 4);
        let (b0, b1, b2, b3) = (
            bytes[4 * k],
            bytes[4 * k + 1],
            bytes[4 * k + 2],
            bytes[4 * k + 3],
        );
        let v = values[k];
        assert(v == le_value(b0, b1, b2, b3));
        lemma_encoded_value(v);
        law_le_value_is_unique(
            le_byte(v, 0),
            le_byte(v, 1),
            le_byte(v, 2),
            le_byte(v, 3),
            b0,
            b1,
            b2,
            b3,
        );
    }
    assert(le_bytes(values) =~= bytes);
}

/// A scalar is the first value of its tensor; a tensor without a value is
/// refused by its index, and every other failure is that of the tensor.
pub proof fn law_scalars_are_first_values(
    tensors: Seq<Tensor>,
    buffers: Seq<Buffer>,
    index: usize,
)
    ensures
        match constant(tensors, buffers, index) {
            None => scalar_constant(tensors, buffers, index) is None,
            Some(Err(error)) => scalar_constant(tensors, buffers, index) == Some(
                Err::<i32, ConstantError>(error),
            ),
            Some(Ok(values)) => match scalar_constant(tensors, buffers, index) {
                Some(Ok(value)) => values.len() > 0 && value == values[0],
                Some(Err(ConstantError::Empty { tensor })) => values.len() == 0 && tensor == index,
                _ => false,
            },
        },
{
}

} // verus!
