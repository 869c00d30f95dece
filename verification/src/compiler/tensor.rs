//! Tensors of a model as the compiler carries them into the layers.
use crate::quantize;
use vstd::prelude::*;

verus! {

/// A matrix of a model with its quantization. The scales are carried along,
/// never read.
#[derive(Debug, PartialEq, Eq)]
pub struct TokenTensor2D<T, S> {
    /// The elements, column by column; empty where the tensor is no constant.
    pub buffer: Vec<Vec<T>>,
    pub shape: Vec<usize>,
    pub scale: Vec<S>,
    pub zero_point: Vec<T>,
}

/// A rank-4 tensor of a model with its quantization. The scales are carried
/// along, never read.
#[derive(Debug, PartialEq, Eq)]
pub struct TokenTensor4D<T, S> {
    /// The elements in row-major order; empty where the tensor is no
    /// constant.
    pub buffer: Vec<T>,
    pub shape: Vec<usize>,
    pub scale: Vec<S>,
    pub zero_point: Vec<T>,
}

/// Picks the parameter of one channel.
pub fn channel_entry<A: Copy>(values: &[A], channel: usize) -> (r: A)
    requires
        values@.len() > 0,
    ensures
        r == quantize::per_channel(values@, channel as int),
{
    if channel < values.len() {
        values[channel]
    } else {
        values[0]
    }
}

/// A vector that holds one value `n` times.
pub fn repeated<A: Copy>(value: A, n: usize) -> (r: Vec<A>)
    ensures
        r@ == Seq::new(n as nat, |i: int| value),
{
    let mut r: Vec<A> = Vec::new();
    while r.len() < n
        invariant
            r.len() <= n,
            r@ =~= Seq::new(r@.len(), |i: int| value),
        decreases n - r.len(),
    {
        r.push(value);
    }
    r
}

/// The bias that restores one dropped from the file: a zero for each of `n`
/// outputs.
pub open spec fn is_zero_bias<S>(bias: TokenTensor2D<i32, S>, n: nat, one: S) -> bool {
    &&& bias.buffer@.len() == 1
    &&& bias.buffer@[0]@ == Seq::new(n, |i: int| 0i32)
    &&& bias.shape@ == seq![n as usize, 1usize]
    &&& bias.scale@ == seq![one]
    &&& bias.zero_point@ == seq![0i32]
}

/// Makes the bias of a layer whose file drops an all-zero one, where `one`
/// is the scale of one.
pub fn zero_bias<S: Copy>(n: usize, one: S) -> (bias: TokenTensor2D<i32, S>)
    ensures
        is_zero_bias(bias, n as nat, one),
{
    let bias: TokenTensor2D<i32, S> = TokenTensor2D {
        buffer: vec![repeated(0i32, n)],
        shape: vec![n, 1],
        scale: vec![one],
        zero_point: vec![0],
    };
    assert(bias.shape@ =~= seq![n, 1usize]);
    assert(bias.scale@ =~= seq![one]);
    assert(bias.zero_point@ =~= seq![0i32]);
    bias
}

/// The tensor that holds the bias of an operator, by its inputs. The
/// converter drops an all-zero bias: it names a negative index, or none.
pub open spec fn bias_tensor(inputs: Seq<i32>) -> Option<usize> {
    if inputs.len() >= 3 && inputs[2] >= 0 {
        Some(inputs[2] as usize)
    } else {
        None
    }
}

/// Finds the tensor that holds the bias of an operator.
pub fn bias_input(inputs: &[i32]) -> (r: Option<usize>)
    ensures
        r == bias_tensor(inputs@),
{
    if inputs.len() >= 3 && inputs[2] >= 0 {
        Some(inputs[2] as usize)
    } else {
        None
    }
}

/// The part of some elements that makes column `j` of `rows` elements.
pub open spec fn column_of<A>(elements: Seq<A>, rows: int, j: int) -> Seq<A> {
    elements.subrange(j * rows, (j + 1) * rows)
}

/// Element `i` of column `j` stands `j` columns and `i` elements behind the
/// first.
pub proof fn law_columns_are_in_order<A>(
    elements: Seq<A>,
    columns: int,
    rows: int,
    j: int,
    i: int,
)
    requires
        elements.len() == columns * rows,
        0 <= j < columns,
        0 <= i < rows,
    ensures
        0 <= j * rows + i < elements.len(),
        column_of(elements, rows, j).len() == rows,
        column_of(elements, rows, j)[i] == elements[j * rows + i],
{
    assert(0 <= j * rows && j * rows + rows == (j + 1) * rows && (j + 1) * rows <= columns * rows)
        by (nonlinear_arith)
        requires
            0 <= j < columns,
            0 <= i < rows,
    ;
}

/// Splits elements into columns of `rows` elements each: `None` where they
/// are not that many.
pub fn checked_columns<A: Copy>(elements: &[A], columns: usize, rows: usize) -> (r: Option<
    Vec<Vec<A>>,
>)
    ensures
        r is Some <==> elements@.len() == columns * rows,
        r matches Some(split) ==> split@.len() == columns && forall|j: int|
            0 <= j < columns ==> (#[trigger] split@[j])@ == column_of(elements@, rows as int, j),
{
    let len: usize = elements.len();
    match columns.checked_mul(rows) {
        Some(count) => {
            if count != len {
                return None;
            }
        },
        None => {
            return None;
        },
    }
    let mut split: Vec<Vec<A>> = Vec::new();
    let mut j: usize = 0;
    let mut at: usize = 0;
    while j < columns
        invariant
            j <= columns,
            at == j * rows,
            elements@.len() == columns * rows,
            elements@.len() <= usize::MAX,
            split@.len() == j,
            forall|k: int|
                0 <= k < j ==> (#[trigger] split@[k])@ == elements@.subrange(
                    k * rows,
                    (k + 1) * rows,
                ),
        decreases columns - j,
    {
        assert(j * rows + rows == (j + 1) * rows && (j + 1) * rows <= columns * rows)
            by (nonlinear_arith)
            requires
                j < columns,
                rows >= 0,
        ;
        let mut column: Vec<A> = Vec::new();
        let mut i: usize = 0;
        while i < rows
            invariant
                i <= rows,
                at + rows <= elements@.len(),
                elements@.len() <= usize::MAX,
                column@ =~= elements@.subrange(at as int, at + i),
            decreases rows - i,
        {
            column.push(elements[at + i]);
            i += 1;
        }
        split.push(column);
        at = at + rows;
        j += 1;
    }
    Some(split)
}

} // verus!
