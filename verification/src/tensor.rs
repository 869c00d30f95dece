//! Tensors and how a window reads beyond them.
use vstd::prelude::*;

verus! {

/// How a window reads beyond the borders of its input.
#[derive(Clone, Copy, Debug, PartialEq, Eq, Structural)]
pub enum TensorViewPadding {
    /// The input is padded, so that the output covers it whole.
    Same,
    /// The window stays inside the input.
    Valid,
}

/// A matrix, row by row.
pub type Buffer2D<T, const ROWS: usize, const COLS: usize> = [[T; COLS]; ROWS];

/// A batch of matrices whose elements hold one value per channel.
pub type Buffer4D<
    T,
    const BATCHES: usize,
    const ROWS: usize,
    const COLS: usize,
    const CHANS: usize,
> = [[[[T; CHANS]; COLS]; ROWS]; BATCHES];

/// A matrix with its quantization: `QUANTS` scales and zero points. The
/// scales are carried along, never read.
#[derive(Debug, PartialEq, Eq)]
pub struct Tensor2D<T, S, const ROWS: usize, const COLS: usize, const QUANTS: usize> {
    pub buffer: [[T; COLS]; ROWS],
    pub scale: [S; QUANTS],
    pub zero_point: [T; QUANTS],
}

impl<T, S, const ROWS: usize, const COLS: usize, const QUANTS: usize> Tensor2D<
    T,
    S,
    ROWS,
    COLS,
    QUANTS,
> {
    /// Makes a tensor of its parts.
    pub fn new(
        buffer: Buffer2D<T, ROWS, COLS>,
        scale: [S; QUANTS],
        zero_point: [T; QUANTS],
    ) -> (r: Self)
        ensures
            r.buffer == buffer,
            r.scale == scale,
            r.zero_point == zero_point,
    {
        Tensor2D { buffer, scale, zero_point }
    }
}

/// A batch of matrices of channels with its quantization: `QUANTS` scales
/// and zero points. The scales are carried along, never read.
#[derive(Debug, PartialEq, Eq)]
pub struct Tensor4D<
    T,
    S,
    const BATCHES: usize,
    const ROWS: usize,
    const COLS: usize,
    const CHANS: usize,
    const QUANTS: usize,
> {
    pub buffer: [[[[T; CHANS]; COLS]; ROWS]; BATCHES],
    pub scale: [S; QUANTS],
    pub zero_point: [T; QUANTS],
}

impl<
    T,
    S,
    const BATCHES: usize,
    const ROWS: usize,
    const COLS: usize,
    const CHANS: usize,
    const QUANTS: usize,
> Tensor4D<T, S, BATCHES, ROWS, COLS, CHANS, QUANTS> {
    /// Makes a tensor of its parts.
    pub fn new(
        buffer: Buffer4D<T, BATCHES, ROWS, COLS, CHANS>,
        scale: [S; QUANTS],
        zero_point: [T; QUANTS],
    ) -> (r: Self)
        ensures
            r.buffer == buffer,
            r.scale == scale,
            r.zero_point == zero_point,
    {
        Tensor4D { buffer, scale, zero_point }
    }
}

} // verus!
