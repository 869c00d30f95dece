//! Folding of shape operators.
use microflow::activation::FusedActivation;
use microflow::compiler::constants::{
    checked_read_i32_scalar, checked_read_i32s, le_i32s, read_i32_scalar, read_i32s, ConstantError,
};
use microflow::compiler::conversion::{
    checked_conversion_steps, conversion_steps, ConversionError,
};
use microflow::compiler::fold::{checked_fold, data_input, fold, FoldError, FoldedGraph, Label, Value};
use microflow::compiler::normalize::{
    checked_normalize_model_output, checked_normalize_real_input, normalize_model_output,
    normalize_real_input, normalize_real_output, RankError,
};
use microflow::compiler::schema::{
    activation_from_code, builtin_kind, checked_operator_element, padding_from_code, tensor_name, tensor_shape, Buffer, BuiltinOperator,
    BuiltinOptions, ElementType, Graph, Operator, OperatorCode, StridedSliceOptions,
    Tensor, TensorType,
};
use microflow::tensor::TensorViewPadding;
use microflow::compiler::shape::{
    checked_expand_shape, checked_product, checked_resolve_shape, checked_strided_slice,
    expand_shape, product, resolve_shape, strided_slice, AxisError, ResolveError, SliceError,
};

#[test]
fn resolves_minus_one() {
    assert_eq!(resolve_shape(&[-1, 126, 8], 1008).unwrap(), vec![1, 126, 8]);
    assert_eq!(resolve_shape(&[1, 480], 480).unwrap(), vec![1, 480]);
    assert!(resolve_shape(&[-1, 5], 12).is_err(), "12 % 5 != 0");
    assert!(resolve_shape(&[-1, -1, 8], 64).is_err(), "two -1s");
    assert!(resolve_shape(&[3, 3], 8).is_err(), "element count mismatch");
}

#[test]
fn expands_dims() {
    assert_eq!(expand_shape(&[1, 128, 1], -3).unwrap(), vec![1, 1, 128, 1]);
    assert_eq!(expand_shape(&[1, 126, 8], 1).unwrap(), vec![1, 1, 126, 8]);
    assert_eq!(expand_shape(&[3], 1).unwrap(), vec![3, 1]);
    assert!(expand_shape(&[1, 2], 3).is_err(), "axis out of range");
    assert!(
        expand_shape(&[1, 2], -4).is_err(),
        "negative axis out of range"
    );
}

#[test]
fn slices_like_the_flatten_chain() {
    // The Flatten chain of the spike: shape[0:1:1] of [1, 30, 16] -> [1]
    assert_eq!(
        strided_slice(&[1, 30, 16], &[0], &[1], &[1], true).unwrap(),
        vec![1]
    );
    assert_eq!(
        strided_slice(&[1, 2, 3], &[1], &[3], &[1], false).unwrap(),
        vec![2, 3]
    );
    assert_eq!(
        strided_slice(&[1, 2, 3], &[3], &[0], &[-1], false).unwrap(),
        vec![3, 2]
    );
    assert_eq!(
        strided_slice(&[1, 2], &[-2], &[-1], &[1], false).unwrap(),
        vec![1]
    );
    assert!(strided_slice(&[1, 2], &[0], &[2], &[1], true).is_err());
}

#[test]
fn normalizes_io_shapes() {
    assert_eq!(
        normalize_real_input(BuiltinOperator::CONV_2D, vec![1, 8, 4]).unwrap(),
        vec![1, 1, 8, 4]
    );
    assert!(normalize_real_input(BuiltinOperator::CONV_2D, vec![8, 4]).is_err());
    assert_eq!(
        normalize_real_input(BuiltinOperator::FULLY_CONNECTED, vec![1, 1, 30, 16]).unwrap(),
        vec![1, 480]
    );
    assert_eq!(
        normalize_real_output(BuiltinOperator::CONV_2D, vec![1, 30, 16]).unwrap(),
        vec![1, 1, 30, 16]
    );
    assert_eq!(
        normalize_real_output(BuiltinOperator::SOFTMAX, vec![1, 4]).unwrap(),
        vec![1, 4]
    );
    assert_eq!(normalize_model_output(&[1, 30, 16]).unwrap(), vec![1, 480]);
}

/// A graph under construction.
struct Builder {
    graph: Graph,
}

impl Builder {
    fn new() -> Self {
        Builder {
            graph: Graph {
                operators: vec![],
                operator_codes: vec![],
                tensors: vec![],
                // Buffer 0 is the empty one, as in a model file.
                buffers: vec![Buffer { data: None }],
            },
        }
    }

    /// Adds a tensor that some operator produces.
    fn tensor(&mut self, shape: &[i32]) -> i32 {
        self.graph.tensors.push(Tensor {
            name: Some(format!("t{}", self.graph.tensors.len())),
            shape: Some(shape.to_vec()),
            type_: TensorType::INT8,
            buffer: 0,
            zero_point: Some(vec![0]),
        });
        (self.graph.tensors.len() - 1) as i32
    }

    /// Adds a constant vector; a scalar where `shape` is empty.
    fn constant(&mut self, shape: &[i32], values: &[i32]) -> i32 {
        let mut data = vec![];
        for value in values {
            data.extend_from_slice(&value.to_le_bytes());
        }
        self.graph.buffers.push(Buffer { data: Some(data) });
        self.graph.tensors.push(Tensor {
            name: None,
            shape: Some(shape.to_vec()),
            type_: TensorType::OTHER(2),
            buffer: (self.graph.buffers.len() - 1) as u32,
            zero_point: None,
        });
        (self.graph.tensors.len() - 1) as i32
    }

    fn operator(&mut self, kind: BuiltinOperator, inputs: &[i32], output: i32, options: BuiltinOptions) {
        self.graph.operator_codes.push(OperatorCode {
            deprecated_builtin_code: kind.code() as i8,
            builtin_code: kind.code(),
        });
        self.graph.operators.push(Operator {
            opcode_index: (self.graph.operator_codes.len() - 1) as u32,
            inputs: Some(inputs.to_vec()),
            outputs: Some(vec![output]),
            options,
        });
    }
}

fn no_masks(shrink: i32) -> BuiltinOptions {
    BuiltinOptions::StridedSlice(StridedSliceOptions {
        begin_mask: 0,
        end_mask: 0,
        ellipsis_mask: 0,
        new_axis_mask: 0,
        shrink_axis_mask: shrink,
    })
}

/// A 1-D network as a converter writes it: 18 operators.
fn spike() -> (Graph, usize, usize) {
    let mut b = Builder::new();
    let axis_before = b.constant(&[], &[-3]);
    let axis_one = b.constant(&[], &[1]);
    let input = b.tensor(&[1, 128, 1]);
    let weights = b.tensor(&[8, 1, 3, 1]);
    let mut last = input;
    // Conv block, pool block, conv block, pool block: each wrapped into
    // EXPAND_DIMS and RESHAPE.
    let blocks: [(BuiltinOperator, [i32; 3], [i32; 3]); 4] = [
        (BuiltinOperator::CONV_2D, [1, 128, 1], [1, 126, 8]),
        (BuiltinOperator::AVERAGE_POOL_2D, [1, 126, 8], [1, 63, 8]),
        (BuiltinOperator::CONV_2D, [1, 63, 8], [1, 61, 16]),
        (BuiltinOperator::AVERAGE_POOL_2D, [1, 61, 16], [1, 30, 16]),
    ];
    for (k, (kind, from, to)) in blocks.iter().enumerate() {
        let expanded = b.tensor(&[1, 1, from[1], from[2]]);
        let axis = if k == 0 { axis_before } else { axis_one };
        b.operator(BuiltinOperator::EXPAND_DIMS, &[last, axis], expanded, BuiltinOptions::Other);
        let computed = b.tensor(&[1, 1, to[1], to[2]]);
        let inputs = if *kind == BuiltinOperator::CONV_2D {
            vec![expanded, weights]
        } else {
            vec![expanded]
        };
        b.operator(*kind, &inputs, computed, BuiltinOptions::Other);
        let squeezed = b.tensor(&[1, to[1], to[2]]);
        let target = b.constant(&[3], &[-1, to[1], to[2]]);
        b.operator(
            BuiltinOperator::RESHAPE,
            &[computed, target],
            squeezed,
            BuiltinOptions::Reshape { new_shape: None },
        );
        last = squeezed;
    }
    // Flatten: SHAPE -> STRIDED_SLICE -> PACK -> RESHAPE.
    let shape = b.tensor(&[3]);
    b.operator(BuiltinOperator::SHAPE, &[last], shape, BuiltinOptions::Other);
    let begin = b.constant(&[1], &[0]);
    let end = b.constant(&[1], &[1]);
    let strides = b.constant(&[1], &[1]);
    let batch = b.tensor(&[]);
    b.operator(
        BuiltinOperator::STRIDED_SLICE,
        &[shape, begin, end, strides],
        batch,
        no_masks(1),
    );
    let size = b.constant(&[], &[480]);
    let packed = b.tensor(&[2]);
    b.operator(
        BuiltinOperator::PACK,
        &[batch, size],
        packed,
        BuiltinOptions::Pack { axis: 0 },
    );
    let flat = b.tensor(&[1, 480]);
    b.operator(
        BuiltinOperator::RESHAPE,
        &[last, packed],
        flat,
        BuiltinOptions::Reshape { new_shape: None },
    );
    let dense = b.tensor(&[1, 4]);
    b.operator(
        BuiltinOperator::FULLY_CONNECTED,
        &[flat],
        dense,
        BuiltinOptions::FullyConnected { fused_activation: FusedActivation::Linear },
    );
    let output = b.tensor(&[1, 4]);
    b.operator(BuiltinOperator::SOFTMAX, &[dense], output, BuiltinOptions::Other);
    (b.graph, input as usize, output as usize)
}

/// The spike model: 18 operators fold into exactly 6 layers.
#[test]
fn folds_spike_graph_to_six_layers() {
    let (graph, input_index, output_index) = spike();
    assert_eq!(graph.operators.len(), 18);
    let folded = fold(&graph, input_index, output_index, &[1, 128, 1]).unwrap();

    let kinds: Vec<i32> = folded.ops.iter().map(|o| o.kind.code()).collect();
    assert_eq!(
        kinds,
        vec![
            BuiltinOperator::CONV_2D.code(),
            BuiltinOperator::AVERAGE_POOL_2D.code(),
            BuiltinOperator::CONV_2D.code(),
            BuiltinOperator::AVERAGE_POOL_2D.code(),
            BuiltinOperator::FULLY_CONNECTED.code(),
            BuiltinOperator::SOFTMAX.code(),
        ],
        "18 ops -> 6 layers"
    );
    let shapes: Vec<(&[usize], &[usize])> = folded
        .ops
        .iter()
        .map(|o| (o.input_shape.as_slice(), o.output_shape.as_slice()))
        .collect();
    assert_eq!(shapes[0], (&[1, 1, 128, 1][..], &[1, 1, 126, 8][..]));
    assert_eq!(shapes[1], (&[1, 1, 126, 8][..], &[1, 1, 63, 8][..]));
    assert_eq!(shapes[2], (&[1, 1, 63, 8][..], &[1, 1, 61, 16][..]));
    assert_eq!(shapes[3], (&[1, 1, 61, 16][..], &[1, 1, 30, 16][..]));
    assert_eq!(
        shapes[4],
        (&[1, 480][..], &[1, 4][..]),
        "the folded Flatten"
    );
    assert_eq!(shapes[5], (&[1, 4][..], &[1, 4][..]));
    assert_eq!(folded.output_shape, vec![1, 4]);
}

#[test]
fn folding_keeps_the_real_operators_in_order() {
    let (graph, input, output) = spike();
    let folded = fold(&graph, input, output, &[1, 128, 1]).unwrap();
    let indexes: Vec<usize> = folded.ops.iter().map(|o| o.index).collect();
    assert_eq!(indexes, vec![1, 4, 7, 10, 16, 17]);
}

#[test]
fn folding_keeps_the_element_counts() {
    let (graph, input, output) = spike();
    let folded = fold(&graph, input, output, &[1, 128, 1]).unwrap();
    let mut held: usize = 128;
    for op in &folded.ops {
        assert_eq!(product(&op.input_shape), held);
        held = product(&op.output_shape);
    }
    assert_eq!(product(&folded.output_shape), held);
}

#[test]
fn products_of_dimensions() {
    assert_eq!(product(&[]), 1);
    assert_eq!(product(&[3, 4, 5]), 60);
    assert_eq!(checked_product(&[usize::MAX, 2]), None);
    // The product is taken from left to right.
    assert_eq!(checked_product(&[usize::MAX, 2, 0]), None);
    assert_eq!(checked_product(&[0, usize::MAX, 2]), Some(0));
}

#[test]
fn resolve_errors() {
    assert_eq!(resolve_shape(&[-1, -1, 8], 64), Err(ResolveError::ManyUnknowns));
    assert_eq!(
        resolve_shape(&[-1, 5], 12),
        Err(ResolveError::Indivisible { total: 12, known: 5 })
    );
    assert_eq!(
        resolve_shape(&[3, 3], 8),
        Err(ResolveError::CountMismatch { resolved: vec![3, 3], count: 9, total: 8 })
    );
    assert!(matches!(
        resolve_shape(&[-2, 4], 8),
        Err(ResolveError::InvalidDimension { dim: -2 })
    ));
    assert_eq!(checked_resolve_shape(&[i64::MAX, 2], 8), None);
    assert_eq!(checked_resolve_shape(&[2, -1], 8), Some(Ok(vec![2, 4])));
}

#[test]
fn resolving_keeps_the_count() {
    for dims in [[-1i64, 4, 3], [2, -1, 3], [2, 4, -1], [2, 4, 3]] {
        assert_eq!(product(&resolve_shape(&dims, 24).unwrap()), 24);
    }
}

#[test]
fn axis_errors() {
    assert!(matches!(expand_shape(&[1, 2], 3), Err(AxisError { .. })));
    assert_eq!(checked_expand_shape(&[1, 2], 2), Some(Ok(vec![1, 2, 1])));
    assert_eq!(checked_expand_shape(&[], 0), Some(Ok(vec![1])));
    assert_eq!(checked_expand_shape(&[4, 5], -1), Some(Ok(vec![4, 5, 1])));
}

#[test]
fn slice_errors() {
    assert_eq!(
        strided_slice(&[1, 2], &[0, 1], &[2], &[1], false),
        Err(SliceError::NotOneDimensional)
    );
    assert_eq!(strided_slice(&[1, 2], &[0], &[2], &[0], false), Err(SliceError::ZeroStride));
    assert_eq!(
        strided_slice(&[1, 2], &[0], &[2], &[1], true),
        Err(SliceError::NotOneElement { selected: 2 })
    );
    assert_eq!(
        checked_strided_slice(&[7, 8, 9], &[0], &[3], &[2], false),
        Some(Ok(vec![7, 9]))
    );
}

#[test]
fn unit_slices_give_the_range() {
    assert_eq!(
        strided_slice(&[5, 6, 7, 8], &[1], &[3], &[1], false).unwrap(),
        vec![6, 7]
    );
}

#[test]
fn rank_errors() {
    assert_eq!(
        normalize_real_output(BuiltinOperator::SOFTMAX, vec![1, 2, 3, 4, 5]),
        Err(RankError::OperatorOutput { shape: vec![1, 2, 3, 4, 5] })
    );
    assert_eq!(
        normalize_real_input(BuiltinOperator::CONV_2D, vec![8, 4]),
        Err(RankError::WindowInput { shape: vec![8, 4] })
    );
    assert_eq!(
        normalize_real_input(BuiltinOperator::SOFTMAX, vec![]),
        Err(RankError::OperatorInput { shape: vec![] })
    );
    assert_eq!(
        normalize_model_output(&[1, 2, 3, 4, 5]),
        Err(RankError::ModelOutput { shape: vec![1, 2, 3, 4, 5] })
    );
    assert_eq!(
        checked_normalize_real_input(BuiltinOperator::SOFTMAX, vec![1, usize::MAX, 2]),
        None
    );
    assert_eq!(checked_normalize_model_output(&[1, usize::MAX, 2]), None);
}

#[test]
fn little_endian_constants() {
    assert_eq!(le_i32s(&[1, 0, 0, 0, 255, 255, 255, 255]), vec![1, -1]);
    assert_eq!(le_i32s(&[0, 1, 0, 0, 9]), vec![256]);
    let mut b = Builder::new();
    let vector = b.constant(&[2], &[-5, 70000]) as usize;
    let short = b.constant(&[3], &[1]) as usize;
    let empty = b.constant(&[0], &[]) as usize;
    let data = b.tensor(&[1]) as usize;
    let (tensors, buffers) = (&b.graph.tensors, &b.graph.buffers);
    assert_eq!(read_i32s(tensors, buffers, vector), Ok(vec![-5, 70000]));
    assert_eq!(read_i32_scalar(tensors, buffers, vector), Ok(-5));
    assert_eq!(
        read_i32s(tensors, buffers, short),
        Err(ConstantError::LengthMismatch { tensor: short, expected: 3, found: 1 })
    );
    assert_eq!(
        read_i32_scalar(tensors, buffers, empty),
        Err(ConstantError::Empty { tensor: empty })
    );
    assert_eq!(
        read_i32s(tensors, buffers, data),
        Err(ConstantError::NoBuffer { tensor: data })
    );
    assert_eq!(checked_read_i32s(tensors, buffers, 99), None);
    assert_eq!(checked_read_i32_scalar(tensors, buffers, 99), None);
}

#[test]
fn tensor_properties() {
    let mut b = Builder::new();
    let named = b.tensor(&[2, 3]) as usize;
    let unnamed = b.constant(&[], &[7]) as usize;
    assert_eq!(tensor_name(&b.graph.tensors[named]), "t0");
    assert_eq!(tensor_name(&b.graph.tensors[unnamed]), "<unnamed>");
    assert_eq!(tensor_shape(&b.graph.tensors[named]), vec![2, 3]);
    assert_eq!(tensor_shape(&b.graph.tensors[unnamed]), Vec::<usize>::new());
}

#[test]
fn operator_kinds_by_their_codes() {
    let codes = [
        OperatorCode { deprecated_builtin_code: 3, builtin_code: 3 },
        OperatorCode { deprecated_builtin_code: 9, builtin_code: 0 },
        OperatorCode { deprecated_builtin_code: 0, builtin_code: 0 },
        OperatorCode { deprecated_builtin_code: 127, builtin_code: 130 },
    ];
    let kind = |opcode_index: u32| {
        builtin_kind(
            &codes,
            &Operator {
                opcode_index,
                inputs: None,
                outputs: None,
                options: BuiltinOptions::Other,
            },
        )
    };
    assert_eq!(kind(0), BuiltinOperator::CONV_2D);
    assert_eq!(kind(1), BuiltinOperator::FULLY_CONNECTED);
    assert_eq!(kind(2), BuiltinOperator::ADD);
    assert_eq!(kind(3), BuiltinOperator::OTHER(130));
}

#[test]
fn operator_elements() {
    let mut b = Builder::new();
    let data = b.tensor(&[1]);
    let other = b.constant(&[1], &[4]);
    let operator = |inputs: Option<Vec<i32>>| Operator {
        opcode_index: 0,
        inputs,
        outputs: None,
        options: BuiltinOptions::Other,
    };
    let element = |inputs| checked_operator_element(&b.graph, &operator(inputs));
    assert_eq!(element(Some(vec![data])), Some(Ok(ElementType::I8)));
    assert_eq!(element(Some(vec![other])), Some(Err(TensorType::OTHER(2))));
    assert_eq!(element(Some(vec![-1])), None);
    assert_eq!(element(Some(vec![])), None);
    assert_eq!(element(None), None);
    assert_eq!(TensorType::UINT8.quantized(), Ok(ElementType::U8));
}

#[test]
fn data_inputs() {
    let values = vec![
        Some(Value::Data { origin: 7, shape: vec![2, 3] }),
        Some(Value::Dims(vec![1, 2])),
        None,
    ];
    assert_eq!(data_input(Label::Reshape, 4, 0, &values), Ok((7, vec![2, 3])));
    assert_eq!(
        data_input(Label::Reshape, 4, 1, &values),
        Err(FoldError::ShapeTensor { label: Label::Reshape, index: 4 })
    );
    assert_eq!(
        data_input(Label::Shape, 4, 2, &values),
        Err(FoldError::NotProduced { label: Label::Shape, index: 4, tensor: 2 })
    );
    assert_eq!(
        data_input(Label::Shape, 4, 9, &values),
        Err(FoldError::NotProduced { label: Label::Shape, index: 4, tensor: 9 })
    );
    // A negative index reads the first entry.
    assert_eq!(data_input(Label::Shape, 4, -1, &values), Ok((7, vec![2, 3])));
}

/// Folds a graph of one operator on a `(1, 6)` input.
fn fold_one(
    build: impl Fn(&mut Builder, i32, i32),
) -> Option<Result<FoldedGraph, FoldError<Vec<usize>, Vec<i64>>>> {
    let mut b = Builder::new();
    let input = b.tensor(&[1, 6]);
    let output = b.tensor(&[1, 6]);
    build(&mut b, input, output);
    checked_fold(&b.graph, input as usize, output as usize, &[1, 6])
}

#[test]
fn fold_errors() {
    let failure = |build: &dyn Fn(&mut Builder, i32, i32)| fold_one(build).unwrap().unwrap_err();

    assert_eq!(
        failure(&|b, input, output| {
            b.operator(BuiltinOperator::EXPAND_DIMS, &[input], output, BuiltinOptions::Other)
        }),
        FoldError::MissingAxis { index: 0 }
    );
    assert!(matches!(
        failure(&|b, input, output| {
            let axis = b.constant(&[], &[5]);
            b.operator(BuiltinOperator::EXPAND_DIMS, &[input, axis], output, BuiltinOptions::Other)
        }),
        FoldError::Axis { index: 0, .. }
    ));
    assert_eq!(
        failure(&|b, input, output| {
            b.operator(
                BuiltinOperator::RESHAPE,
                &[input],
                output,
                BuiltinOptions::Reshape { new_shape: None },
            )
        }),
        FoldError::MissingShape { index: 0 }
    );
    assert!(matches!(
        failure(&|b, input, output| {
            b.operator(
                BuiltinOperator::RESHAPE,
                &[input],
                output,
                BuiltinOptions::Reshape { new_shape: Some(vec![4, -1]) },
            )
        }),
        FoldError::Resolve { index: 0, .. }
    ));
    assert_eq!(
        failure(&|b, input, output| {
            b.operator(BuiltinOperator::STRIDED_SLICE, &[input], output, no_masks(0))
        }),
        FoldError::MissingSliceInputs { index: 0 }
    );
    assert_eq!(
        failure(&|b, input, output| {
            let one = b.constant(&[1], &[1]);
            b.operator(
                BuiltinOperator::STRIDED_SLICE,
                &[input, one, one, one],
                output,
                no_masks(0),
            )
        }),
        FoldError::NotShapeTensor { index: 0 }
    );
    let slice_of_shape = |b: &mut Builder, input: i32, output: i32, stride: i32, options| {
        let shape = b.tensor(&[2]);
        b.operator(BuiltinOperator::SHAPE, &[input], shape, BuiltinOptions::Other);
        let zero = b.constant(&[1], &[0]);
        let one = b.constant(&[1], &[1]);
        let stride = b.constant(&[1], &[stride]);
        b.operator(
            BuiltinOperator::STRIDED_SLICE,
            &[shape, zero, one, stride],
            output,
            options,
        );
    };
    assert_eq!(
        failure(&|b, input, output| {
            slice_of_shape(b, input, output, 1, BuiltinOptions::Other)
        }),
        FoldError::MissingSliceOptions { index: 1 }
    );
    assert_eq!(
        failure(&|b, input, output| {
            slice_of_shape(
                b,
                input,
                output,
                1,
                BuiltinOptions::StridedSlice(StridedSliceOptions {
                    begin_mask: 1,
                    end_mask: 0,
                    ellipsis_mask: 0,
                    new_axis_mask: 0,
                    shrink_axis_mask: 0,
                }),
            )
        }),
        FoldError::UnsupportedMasks { index: 1 }
    );
    assert_eq!(
        failure(&|b, input, output| slice_of_shape(b, input, output, 0, no_masks(0))),
        FoldError::Slice { index: 1, error: SliceError::ZeroStride, dims: vec![1, 6] }
    );
    assert_eq!(
        failure(&|b, _input, output| {
            let one = b.constant(&[1], &[1]);
            b.operator(
                BuiltinOperator::PACK,
                &[one],
                output,
                BuiltinOptions::Pack { axis: 1 },
            )
        }),
        FoldError::PackAxis { index: 0, axis: 1 }
    );
    assert_eq!(
        failure(&|b, input, output| {
            let a = b.tensor(&[1, 6]);
            b.operator(BuiltinOperator::SOFTMAX, &[input], a, BuiltinOptions::Other);
            b.operator(BuiltinOperator::SOFTMAX, &[input], output, BuiltinOptions::Other);
        }),
        FoldError::Branching { kind: BuiltinOperator::SOFTMAX, index: 1 }
    );
    assert_eq!(
        failure(&|b, input, output| {
            b.operator(BuiltinOperator::CONV_2D, &[input], output, BuiltinOptions::Other)
        }),
        FoldError::OperatorShape {
            kind: BuiltinOperator::CONV_2D,
            index: 0,
            error: RankError::WindowInput { shape: vec![1, 6] }
        }
    );
    assert_eq!(
        failure(&|b, input, output| {
            b.operator(BuiltinOperator::ADD, &[input, input], output, BuiltinOptions::Other)
        }),
        FoldError::Unsupported { kind: BuiltinOperator::ADD, index: 0 }
    );
    assert_eq!(failure(&|_, _, _| ()), FoldError::OutputNotProduced);
}

/// A RESHAPE whose constant shape tensor cannot be read names itself and its
/// position.
#[test]
fn reshape_with_a_bad_constant_names_the_operator() {
    let mut b = Builder::new();
    let input = b.tensor(&[1, 6]);
    let middle = b.tensor(&[1, 6]);
    let output = b.tensor(&[2, 3]);
    b.operator(BuiltinOperator::SOFTMAX, &[input], middle, BuiltinOptions::Other);
    let constant = b.constant(&[3], &[2, 3]) as usize;
    b.operator(
        BuiltinOperator::RESHAPE,
        &[middle, constant as i32],
        output,
        BuiltinOptions::Reshape { new_shape: None },
    );
    assert_eq!(
        fold(&b.graph, input as usize, output as usize, &[1, 6]).unwrap_err(),
        FoldError::OperatorConstant {
            label: Label::Reshape,
            index: 1,
            error: ConstantError::LengthMismatch { tensor: constant, expected: 3, found: 2 }
        }
    );
}

/// A PACK of a tensor without a value names itself and its position.
#[test]
fn pack_with_a_bad_constant_names_the_operator() {
    let mut b = Builder::new();
    let input = b.tensor(&[1, 6]);
    let shape = b.tensor(&[2]);
    let packed = b.tensor(&[2]);
    b.operator(BuiltinOperator::SHAPE, &[input], shape, BuiltinOptions::Other);
    let good = b.constant(&[], &[1]);
    // The shape vector has two entries, and the tensor has no buffer.
    b.operator(
        BuiltinOperator::PACK,
        &[good, shape],
        packed,
        BuiltinOptions::Pack { axis: 0 },
    );
    assert_eq!(
        fold(&b.graph, input as usize, input as usize, &[1, 6]).unwrap_err(),
        FoldError::OperatorConstant {
            label: Label::Pack,
            index: 1,
            error: ConstantError::NoBuffer { tensor: shape as usize }
        }
    );
    let empty = b.constant(&[0], &[]);
    b.graph.operators[1].inputs = Some(vec![good, empty]);
    assert_eq!(
        fold(&b.graph, input as usize, input as usize, &[1, 6]).unwrap_err(),
        FoldError::OperatorConstant {
            label: Label::Pack,
            index: 1,
            error: ConstantError::Empty { tensor: empty as usize }
        }
    );
}

/// The other two operators that read constants name themselves as well.
#[test]
fn expand_and_slice_with_a_bad_constant_name_the_operator() {
    let mut b = Builder::new();
    let input = b.tensor(&[1, 6]);
    let output = b.tensor(&[1, 6]);
    let empty = b.constant(&[0], &[]);
    b.operator(BuiltinOperator::EXPAND_DIMS, &[input, empty], output, BuiltinOptions::Other);
    assert_eq!(
        fold(&b.graph, input as usize, output as usize, &[1, 6]).unwrap_err(),
        FoldError::OperatorConstant {
            label: Label::ExpandDims,
            index: 0,
            error: ConstantError::Empty { tensor: empty as usize }
        }
    );
    let mut b = Builder::new();
    let input = b.tensor(&[1, 6]);
    let shape = b.tensor(&[2]);
    let output = b.tensor(&[1]);
    b.operator(BuiltinOperator::SHAPE, &[input], shape, BuiltinOptions::Other);
    let one = b.constant(&[1], &[1]);
    let short = b.constant(&[2], &[1]);
    b.operator(
        BuiltinOperator::STRIDED_SLICE,
        &[shape, one, short, one],
        output,
        no_masks(0),
    );
    assert_eq!(
        fold(&b.graph, input as usize, output as usize, &[1, 6]).unwrap_err(),
        FoldError::OperatorConstant {
            label: Label::StridedSlice,
            index: 1,
            error: ConstantError::LengthMismatch { tensor: short as usize, expected: 2, found: 1 }
        }
    );
}

#[test]
fn fold_without_a_tensor_is_undefined() {
    let b = Builder::new();
    assert_eq!(checked_fold(&b.graph, 0, 0, &[1]), None);
}

#[test]
fn conversions() {
    assert_eq!(
        conversion_steps(&[1, 1, 30, 16], &[1, 480]).unwrap().steps,
        vec![vec![1, 480]]
    );
    assert_eq!(
        conversion_steps(&[1, 480], &[1, 1, 30, 16]).unwrap().steps,
        vec![vec![1, 1, 30, 16]]
    );
    assert_eq!(
        conversion_steps(&[1, 1, 30, 16], &[1, 30, 1, 16]).unwrap().steps,
        vec![vec![1, 480], vec![1, 30, 1, 16]]
    );
    assert_eq!(
        conversion_steps(&[1, 4], &[1, 4]).unwrap().steps,
        Vec::<Vec<usize>>::new()
    );
    assert_eq!(
        conversion_steps(&[1, 4], &[1, 5]),
        Err(ConversionError::CountMismatch {
            from: vec![1, 4],
            to: vec![1, 5],
            from_count: 4,
            to_count: 5
        })
    );
    assert_eq!(
        conversion_steps(&[1, 2, 1, 4], &[2, 4]),
        Err(ConversionError::Batch { from: vec![1, 2, 1, 4], to: vec![2, 4] })
    );
    assert_eq!(
        conversion_steps(&[1, 8], &[2, 4]),
        Err(ConversionError::Unsupported { from: vec![1, 8], to: vec![2, 4] })
    );
    assert_eq!(checked_conversion_steps(&[usize::MAX, 2], &[1, 2]), None);
    assert_eq!(checked_conversion_steps(&[0, 1, 1, 1], &[0, 2]), None);
}

#[test]
fn conversions_keep_the_data() {
    let from = [2usize, 3, 4, 5];
    let to = [2usize, 5, 4, 3];
    let steps = conversion_steps(&from, &to).unwrap().steps;
    for step in &steps {
        assert_eq!(product(step), product(&from));
        assert_eq!(step[0], from[0]);
    }
    assert_eq!(steps.last().unwrap().as_slice(), &to[..]);
}

#[test]
fn encoded_constants_read_back() {
    let values = [0, 1, -1, 255, 256, -256, 65536, i32::MAX, i32::MIN, 0x12345678];
    let bytes: Vec<u8> = values.iter().flat_map(|value: &i32| value.to_le_bytes()).collect();
    assert_eq!(le_i32s(&bytes), values);
}

#[test]
fn negative_axes_count_from_the_end() {
    let shape = [2usize, 3, 4];
    for axis in -4..0i32 {
        let expanded = expand_shape(&shape, axis).unwrap();
        assert_eq!(expanded, expand_shape(&shape, axis + 4).unwrap());
        let at = (axis + 4) as usize;
        assert_eq!(expanded[at], 1);
        let mut back = expanded.clone();
        back.remove(at);
        assert_eq!(back, shape);
    }
}

#[test]
fn codes_of_the_file_format() {
    assert_eq!(TensorType::from_code(9), TensorType::INT8);
    assert_eq!(TensorType::from_code(3), TensorType::UINT8);
    assert_eq!(TensorType::from_code(2), TensorType::OTHER(2));
    assert_eq!(padding_from_code(0), Some(TensorViewPadding::Same));
    assert_eq!(padding_from_code(1), Some(TensorViewPadding::Valid));
    assert_eq!(padding_from_code(2), None);
    assert_eq!(activation_from_code(0), Some(FusedActivation::Linear));
    assert_eq!(activation_from_code(1), Some(FusedActivation::Relu));
    assert_eq!(activation_from_code(3), Some(FusedActivation::Relu6));
    assert_eq!(activation_from_code(2), None);
    for code in 0..100 {
        assert_eq!(BuiltinOperator::from_code(code).code(), code);
    }
}
