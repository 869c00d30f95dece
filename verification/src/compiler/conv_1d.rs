//! Convolutions along one axis, as the compiler builds them.
use crate::activation::FusedActivation;
use crate::compiler::outcome;
use crate::compiler::schema::Conv2DOptions;
use crate::compiler::tensor;
use crate::compiler::tensor::{channel_entry, repeated, zero_bias, TokenTensor2D, TokenTensor4D};
use crate::ops;
use crate::quantize;
use crate::tensor::TensorViewPadding;
use vstd::prelude::*;
use vstd::slice::slice_to_vec;

verus! {

/// Why a convolution cannot be built as one along one axis.
#[derive(Debug, PartialEq, Eq)]
pub enum Conv1DError<D> {
    /// The filters are not of rank 4.
    FiltersRank { index: usize, shape: D },
    /// The filters are not one row high.
    FiltersHeight { index: usize, height: usize },
    /// The input is not of rank 4 with a single row.
    Input { index: usize, shape: D },
    /// The filters expect another number of channels.
    Channels { index: usize, filters: usize, input: usize },
    /// The filters stride over rows.
    StrideHeight { index: usize, stride_h: i32 },
    /// No window fits inside the input.
    EmptyOutput { index: usize, timesteps: usize, kernel: usize },
    /// The output is not of rank 4 with a single row.
    Output { index: usize, shape: D },
    /// The output does not have the expected number of timesteps or filters.
    Geometry {
        index: usize,
        shape: D,
        timesteps: usize,
        kernel: usize,
        stride: usize,
        same: bool,
        expected: usize,
        filters: usize,
    },
}

impl View for Conv1DError<Vec<usize>> {
    type V = Conv1DError<Seq<usize>>;

    open spec fn view(&self) -> Conv1DError<Seq<usize>> {
        match *self {
            Conv1DError::FiltersRank { index, shape } => Conv1DError::FiltersRank {
                index,
                shape: shape@,
            },
            Conv1DError::FiltersHeight { index, height } => Conv1DError::FiltersHeight {
                index,
                height,
            },
            Conv1DError::Input { index, shape } => Conv1DError::Input { index, shape: shape@ },
            Conv1DError::Channels { index, filters, input } => Conv1DError::Channels {
                index,
                filters,
                input,
            },
            Conv1DError::StrideHeight { index, stride_h } => Conv1DError::StrideHeight {
                index,
                stride_h,
            },
            Conv1DError::EmptyOutput { index, timesteps, kernel } => Conv1DError::EmptyOutput {
                index,
                timesteps,
                kernel,
            },
            Conv1DError::Output { index, shape } => Conv1DError::Output { index, shape: shape@ },
            Conv1DError::Geometry {
                index,
                shape,
                timesteps,
                kernel,
                stride,
                same,
                expected,
                filters,
            } => Conv1DError::Geometry {
                index,
                shape: shape@,
                timesteps,
                kernel,
                stride,
                same,
                expected,
                filters,
            },
        }
    }
}

/// The padding by whether it keeps the input covered.
pub open spec fn padding(same: bool) -> TensorViewPadding {
    if same {
        TensorViewPadding::Same
    } else {
        TensorViewPadding::Valid
    }
}

/// Number of output timesteps for the given geometry (mirrors the kernel).
pub fn output_len(timesteps: usize, kernel: usize, stride: usize, same: bool) -> (r: Option<usize>)
    requires
        ops::conv_1d::window_count_defined(
            timesteps as int,
            kernel as int,
            stride as int,
            padding(same),
        ),
    ensures
        match (
            r,
            ops::conv_1d::window_count(
                timesteps as int,
                kernel as int,
                stride as int,
                padding(same),
            ),
        ) {
            (Some(n), Some(count)) => n == count,
            (None, None) => true,
            _ => false,
        },
{
    if same {
        ops::conv_1d::output_len(timesteps, kernel, stride, TensorViewPadding::Same)
    } else {
        ops::conv_1d::output_len(timesteps, kernel, stride, TensorViewPadding::Valid)
    }
}

/// The stride of a convolution along one axis whose shapes match its
/// padding/stride arithmetic, or why there is none; `None` where the number
/// of windows cannot be computed.
pub open spec fn planned_stride(
    index: usize,
    filters: Seq<usize>,
    input: Seq<usize>,
    output: Seq<usize>,
    options: Conv2DOptions,
) -> Option<Result<usize, Conv1DError<Seq<usize>>>> {
    let same = options.padding is Same;
    let stride = options.stride_w as usize;
    let count = ops::conv_1d::window_count(
        input[2] as int,
        filters[2] as int,
        stride as int,
        options.padding,
    );
    if filters.len() != 4 {
        Some(Err(Conv1DError::FiltersRank { index, shape: filters }))
    } else if filters[1] != 1 {
        Some(Err(Conv1DError::FiltersHeight { index, height: filters[1] }))
    } else if input.len() != 4 || input[1] != 1 {
        Some(Err(Conv1DError::Input { index, shape: input }))
    } else if filters[3] != input[3] {
        Some(Err(Conv1DError::Channels { index, filters: filters[3], input: input[3] }))
    } else if options.stride_h != 1 {
        Some(Err(Conv1DError::StrideHeight { index, stride_h: options.stride_h }))
    } else if !ops::conv_1d::window_count_defined(
        input[2] as int,
        filters[2] as int,
        stride as int,
        options.padding,
    ) {
        None
    } else if count is None {
        Some(Err(Conv1DError::EmptyOutput { index, timesteps: input[2], kernel: filters[2] }))
    } else if output.len() != 4 || output[1] != 1 {
        Some(Err(Conv1DError::Output { index, shape: output }))
    } else if output[2] != count->Some_0 || output[3] != filters[0] {
        Some(
            Err(
                Conv1DError::Geometry {
                    index,
                    shape: output,
                    timesteps: input[2],
                    kernel: filters[2],
                    stride,
                    same,
                    expected: count->Some_0 as usize,
                    filters: filters[0],
                },
            ),
        )
    } else {
        Some(Ok(stride))
    }
}

/// Whether the number of windows of a geometry can be computed.
fn countable(timesteps: usize, kernel: usize, stride: usize, padding: TensorViewPadding) -> (r:
    bool)
    ensures
        r == ops::conv_1d::window_count_defined(
            timesteps as int,
            kernel as int,
            stride as int,
            padding,
        ),
{
    match padding {
        TensorViewPadding::Valid => {
            timesteps < kernel || (stride > 0 && (timesteps - kernel) / stride < usize::MAX)
        },
        TensorViewPadding::Same => {
            proof {
                if stride > 0 {
                    ops::conv_1d::lemma_strides_over(timesteps as int, stride as int);
                }
            }
            stride > 0
        },
    }
}

/// Checks the shapes of a convolution along one axis: the filters are one
/// row high, and the output shape matches the padding/stride arithmetic.
/// Returns the stride over time, or `None` where the number of windows
/// cannot be computed.
pub fn checked_plan_stride(
    index: usize,
    filters: &[usize],
    input: &[usize],
    output: &[usize],
    options: &Conv2DOptions,
) -> (r: Option<Result<usize, Conv1DError<Vec<usize>>>>)
    ensures
        outcome::view_of(r) == planned_stride(index, filters@, input@, output@, *options),
{
    if filters.len() != 4 {
        return Some(Err(Conv1DError::FiltersRank { index, shape: slice_to_vec(filters) }));
    }
    if filters[1] != 1 {
        return Some(Err(Conv1DError::FiltersHeight { index, height: filters[1] }));
    }
    if input.len() != 4 || input[1] != 1 {
        return Some(Err(Conv1DError::Input { index, shape: slice_to_vec(input) }));
    }
    if filters[3] != input[3] {
        return Some(Err(Conv1DError::Channels { index, filters: filters[3], input: input[3] }));
    }
    let stride: usize = options.stride_w as usize;
    if options.stride_h != 1 {
        return Some(Err(Conv1DError::StrideHeight { index, stride_h: options.stride_h }));
    }
    if !countable(input[2], filters[2], stride, options.padding) {
        return None;
    }
    let same: bool = options.padding == TensorViewPadding::Same;
    let expected: usize = match output_len(input[2], filters[2], stride, same) {
        Some(expected) => expected,
        None => {
            return Some(
                Err(
                    Conv1DError::EmptyOutput { index, timesteps: input[2], kernel: filters[2] },
                ),
            );
        },
    };
    if output.len() != 4 || output[1] != 1 {
        return Some(Err(Conv1DError::Output { index, shape: slice_to_vec(output) }));
    }
    if output[2] != expected || output[3] != filters[0] {
        return Some(
            Err(
                Conv1DError::Geometry {
                    index,
                    shape: slice_to_vec(output),
                    timesteps: input[2],
                    kernel: filters[2],
                    stride,
                    same,
                    expected,
                    filters: filters[0],
                },
            ),
        );
    }
    Some(Ok(stride))
}

/// The number of scales that the biases of some filters carry: one per
/// filter scale, and at least one.
pub open spec fn quants<T, S>(filters: TokenTensor4D<T, S>) -> nat {
    if filters.scale@.len() > 1 {
        filters.scale@.len()
    } else {
        1
    }
}

/// Whether the bias of every filter can be converted: it is there, and so
/// are the scales.
pub open spec fn accumulator_units_defined<T, S>(
    biases: TokenTensor2D<i32, S>,
    input: TokenTensor4D<T, S>,
    filters: TokenTensor4D<T, S>,
) -> bool {
    filters.shape@[0] > 0 ==> {
        &&& filters.scale@.len() > 0
        &&& biases.scale@.len() > 0
        &&& input.scale@.len() > 0
        &&& biases.buffer@.len() > 0
        &&& biases.buffer@[0]@.len() >= filters.shape@[0]
    }
}

/// Whether some biases are the given ones in accumulator units: each is what
/// `rescale` makes of the file's value, its scale, the scale of the input
/// and the scale of the filter.
pub open spec fn is_in_accumulator_units<T, S, F: Fn(i32, S, S, S) -> i32>(
    converted: TokenTensor2D<i32, S>,
    biases: TokenTensor2D<i32, S>,
    input: TokenTensor4D<T, S>,
    filters: TokenTensor4D<T, S>,
    one: S,
    rescale: F,
) -> bool {
    &&& converted.buffer@.len() == 1
    &&& converted.buffer@[0]@.len() == filters.shape@[0]
    &&& forall|f: int|
        0 <= f < filters.shape@[0] ==> call_ensures(
            rescale,
            (
                biases.buffer@[0]@[f],
                quantize::per_channel(biases.scale@, f),
                input.scale@[0],
                quantize::per_channel(filters.scale@, f),
            ),
            #[trigger] converted.buffer@[0]@[f],
        )
    &&& converted.shape@ == seq![filters.shape@[0], 1usize]
    &&& converted.scale@ == Seq::new(quants(filters), |i: int| one)
    &&& converted.zero_point@ == Seq::new(quants(filters), |i: int| 0i32)
}

/// A convolution along one axis, ready to be emitted.
#[derive(Debug, PartialEq, Eq)]
pub struct TokenConv1D<T, S> {
    pub filters: TokenTensor4D<T, S>,
    /// Bias in accumulator units: the kernel adds it to the accumulator
    /// directly.
    pub biases: TokenTensor2D<i32, S>,
    pub output: TokenTensor4D<T, S>,
    pub fused_activation: FusedActivation,
    pub view_padding: TensorViewPadding,
    pub stride: usize,
    pub index: usize,
}

/// Whether the biases of a layer can be converted, where a dropped one is
/// restored.
pub open spec fn bias_defined<T, S>(
    biases: Option<TokenTensor2D<i32, S>>,
    input: TokenTensor4D<T, S>,
    filters: TokenTensor4D<T, S>,
) -> bool {
    match biases {
        Some(given) => accumulator_units_defined(given, input, filters),
        None => filters.shape@[0] > 0 ==> filters.scale@.len() > 0 && input.scale@.len() > 0,
    }
}

/// Whether some biases are those of the file in accumulator units, where a
/// dropped one is restored.
pub open spec fn is_converted_bias<T, S, F: Fn(i32, S, S, S) -> i32>(
    converted: TokenTensor2D<i32, S>,
    biases: Option<TokenTensor2D<i32, S>>,
    input: TokenTensor4D<T, S>,
    filters: TokenTensor4D<T, S>,
    one: S,
    rescale: F,
) -> bool {
    match biases {
        Some(given) => is_in_accumulator_units(converted, given, input, filters, one, rescale),
        None => exists|zeros: TokenTensor2D<i32, S>|
            #[trigger] tensor::is_zero_bias(zeros, filters.shape@[0] as nat, one)
                && is_in_accumulator_units(converted, zeros, input, filters, one, rescale),
    }
}

/// Whether a layer is the operator built of the given parts.
pub open spec fn is_layer<T, S, F: Fn(i32, S, S, S) -> i32>(
    layer: TokenConv1D<T, S>,
    input: TokenTensor4D<T, S>,
    filters: TokenTensor4D<T, S>,
    biases: Option<TokenTensor2D<i32, S>>,
    output: TokenTensor4D<T, S>,
    options: Conv2DOptions,
    index: usize,
    stride: usize,
    one: S,
    rescale: F,
) -> bool {
    &&& layer.filters == filters
    &&& layer.output == output
    &&& layer.fused_activation == options.fused_activation
    &&& layer.view_padding == options.padding
    &&& layer.stride == stride
    &&& layer.index == index
    &&& is_converted_bias(layer.biases, biases, input, filters, one, rescale)
}

impl<T, S: Copy> TokenConv1D<T, S> {
    /// Converts the biases from the file's units to accumulator units:
    /// `None` where a bias or a scale is missing. The quantization of the
    /// result is unused, but has one entry per filter scale, so that the
    /// tensor types line up.
    pub fn to_accumulator_units<F: Fn(i32, S, S, S) -> i32>(
        biases: &TokenTensor2D<i32, S>,
        input: &TokenTensor4D<T, S>,
        filters: &TokenTensor4D<T, S>,
        one: S,
        rescale: &F,
    ) -> (r: Option<TokenTensor2D<i32, S>>)
        requires
            filters.shape@.len() > 0,
            forall|raw: i32, bias: S, sample: S, weight: S|
                call_requires(*rescale, (raw, bias, sample, weight)),
        ensures
            r is Some <==> accumulator_units_defined(*biases, *input, *filters),
            r matches Some(converted) ==> is_in_accumulator_units(
                converted,
                *biases,
                *input,
                *filters,
                one,
                *rescale,
            ),
    {
        let filters_out: usize = filters.shape[0];
        let quants: usize = if filters.scale.len() > 1 {
            filters.scale.len()
        } else {
            1
        };
        let mut buffer: Vec<i32> = Vec::new();
        if filters_out > 0 {
            if filters.scale.len() == 0 || biases.scale.len() == 0 || input.scale.len() == 0
                || biases.buffer.len() == 0 || biases.buffer[0].len() < filters_out {
                return None;
            }
            let mut f: usize = 0;
            #[verifier::loop_isolation(false)]
            while f < filters_out
                invariant
                    f <= filters_out,
                    buffer@.len() == f,
                    forall|j: int|
                        0 <= j < f ==> call_ensures(
                            *rescale,
                            (
                                biases.buffer@[0]@[j],
                                quantize::per_channel(biases.scale@, j),
                                input.scale@[0],
                                quantize::per_channel(filters.scale@, j),
                            ),
                            #[trigger] buffer@[j],
                        ),
                decreases filters_out - f,
            {
                let scale_w: S = channel_entry(filters.scale.as_slice(), f);
                let scale_b: S = channel_entry(biases.scale.as_slice(), f);
                let raw: i32 = biases.buffer[0][f];
                buffer.push(rescale(raw, scale_b, input.scale[0], scale_w));
                f += 1;
            }
        }
        let converted: TokenTensor2D<i32, S> = TokenTensor2D {
            buffer: vec![buffer],
            shape: vec![filters_out, 1],
            scale: repeated(one, quants),
            zero_point: repeated(0i32, quants),
        };
        assert(converted.shape@ =~= seq![filters_out, 1usize]);
        Some(converted)
    }

    /// Builds the operator from the tensors of the model, with the effective
    /// shapes on the input and the output: `None` where the number of
    /// windows cannot be computed, or a bias or a scale is missing.
    pub fn checked_new<F: Fn(i32, S, S, S) -> i32>(
        input: &TokenTensor4D<T, S>,
        filters: TokenTensor4D<T, S>,
        biases: Option<TokenTensor2D<i32, S>>,
        output: TokenTensor4D<T, S>,
        options: &Conv2DOptions,
        index: usize,
        one: S,
        rescale: &F,
    ) -> (r: Option<Result<Self, Conv1DError<Vec<usize>>>>)
        requires
            forall|raw: i32, bias: S, sample: S, weight: S|
                call_requires(*rescale, (raw, bias, sample, weight)),
        ensures
            match planned_stride(index, filters.shape@, input.shape@, output.shape@, *options) {
                None => r is None,
                Some(Err(error)) => r matches Some(Err(e)) && e@ == error,
                Some(Ok(stride)) => {
                    &&& r is Some <==> bias_defined(biases, *input, filters)
                    &&& r is Some ==> {
                        &&& r matches Some(Ok(layer))
                        &&& is_layer(
                            layer,
                            *input,
                            filters,
                            biases,
                            output,
                            *options,
                            index,
                            stride,
                            one,
                            *rescale,
                        )
                    }
                },
            },
    {
        let stride: usize = match checked_plan_stride(
            index,
            filters.shape.as_slice(),
            input.shape.as_slice(),
            output.shape.as_slice(),
            options,
        ) {
            None => {
                return None;
            },
            Some(Err(error)) => {
                return Some(Err(error));
            },
            Some(Ok(stride)) => stride,
        };
        let given: TokenTensor2D<i32, S> = match biases {
            Some(given) => given,
            None => zero_bias(filters.shape[0], one),
        };
        match Self::to_accumulator_units(&given, input, &filters, one, rescale) {
            None => None,
            Some(converted) => Some(
                Ok(
                    TokenConv1D {
                        filters,
                        biases: converted,
                        output,
                        fused_activation: options.fused_activation,
                        view_padding: options.padding,
                        stride,
                        index,
                    },
                ),
            ),
        }
    }

    /// Builds the operator from the tensors of the model, with the effective
    /// shapes on the input and the output.
    pub fn new<F: Fn(i32, S, S, S) -> i32>(
        input: &TokenTensor4D<T, S>,
        filters: TokenTensor4D<T, S>,
        biases: Option<TokenTensor2D<i32, S>>,
        output: TokenTensor4D<T, S>,
        options: &Conv2DOptions,
        index: usize,
        one: S,
        rescale: &F,
    ) -> (r: Result<Self, Conv1DError<Vec<usize>>>)
        requires
            match planned_stride(index, filters.shape@, input.shape@, output.shape@, *options) {
                None => false,
                Some(Err(_)) => true,
                Some(Ok(_)) => bias_defined(biases, *input, filters),
            },
            forall|raw: i32, bias: S, sample: S, weight: S|
                call_requires(*rescale, (raw, bias, sample, weight)),
        ensures
            match planned_stride(
                index,
                filters.shape@,
                input.shape@,
                output.shape@,
                *options,
            )->Some_0 {
                Err(error) => r matches Err(e) && e@ == error,
                Ok(stride) => r matches Ok(layer) && is_layer(
                    layer,
                    *input,
                    filters,
                    biases,
                    output,
                    *options,
                    index,
                    stride,
                    one,
                    *rescale,
                ),
            },
    {
        Self::checked_new(input, filters, biases, output, options, index, one, rescale).unwrap()
    }
}

/// A layer whose shapes were accepted has the geometry that the kernel
/// expects: the filters and the input agree on the channels, and the output
/// holds one timestep per window and one channel per filter.
pub proof fn law_planned_layer_matches_the_kernel(
    index: usize,
    filters: Seq<usize>,
    input: Seq<usize>,
    output: Seq<usize>,
    options: Conv2DOptions,
)
    requires
        planned_stride(index, filters, input, output, options) matches Some(Ok(_)),
        options.padding is Same ==> input[2] > 0 && (output[2] - 1) * (
        options.stride_w as usize) + filters[2] <= isize::MAX,
    ensures
        ({
            let stride = planned_stride(index, filters, input, output, options)->Some_0->Ok_0;
            &&& filters[3] == input[3]
            &&& output[3] == filters[0]
            &&& ops::conv_1d::geometry_defined(
                ops::conv_1d::Conv1DOptions {
                    fused_activation: options.fused_activation,
                    padding: options.padding,
                    stride,
                },
                output[2] as int,
                filters[2] as int,
                input[2] as int,
            )
        }),
{
    if options.padding is Same {
        ops::conv_1d_laws::law_same_count(
            input[2] as int,
            filters[2] as int,
            (options.stride_w as usize) as int,
            0,
        );
    }
}

} // verus!
