//! Layers and whole models, as the compiler builds them.
use microflow::activation::FusedActivation;
use microflow::compiler::conv_1d::{checked_plan_stride, output_len, Conv1DError, TokenConv1D};
use microflow::compiler::conversion::ConversionError;
use microflow::compiler::fold::{fold, FoldError, FoldedGraph, FoldedOp};
use microflow::compiler::fully_connected::{checked_correction, Arithmetic, TokenFullyConnected};
use microflow::compiler::model::{checked_model, model, ModelError, ZeroPoints};
use microflow::compiler::plan::{
    checked_is_conv_1d, checked_plan_input, is_conv_1d, layer_kind, plan_layers, zero_points_i8,
    zero_points_u8, Failure, InputError, LayerKind, Step,
};
use microflow::compiler::schema::{
    Buffer, BuiltinOperator, BuiltinOptions, Conv2DOptions, ElementType, Graph, Operator,
    OperatorCode, Tensor, TensorType,
};
use microflow::compiler::tensor::{
    bias_input, channel_entry, checked_columns, repeated, zero_bias, TokenTensor2D, TokenTensor4D,
};
use microflow::ops;
use microflow::tensor::TensorViewPadding;

#[test]
fn conv_1d_geometry() {
    assert_eq!(output_len(128, 3, 1, false), Some(126));
    assert_eq!(output_len(126, 2, 2, false), Some(63));
    assert_eq!(output_len(2, 3, 1, false), None, "empty Valid output");
    assert_eq!(output_len(2, 3, 1, true), Some(2), "Same keeps T");
}

fn bias_term(bias: i32, from: f32, to: f32) -> f32 {
    from / to * bias as f32
}

fn multiplier(input: f32, weights: f32, output: f32) -> f32 {
    input * weights / output
}

const ARITHMETIC: Arithmetic<fn(i32, f32, f32) -> f32, fn(f32, f32, f32) -> f32> =
    Arithmetic { bias_term, multiplier };

fn dense_weights() -> TokenTensor2D<i8, f32> {
    // The matrix 1, 2, 3; 4, 5, 6 by its columns.
    TokenTensor2D {
        buffer: vec![vec![1, 4], vec![2, 5], vec![3, 6]],
        shape: vec![2, 3],
        scale: vec![0.7],
        zero_point: vec![8],
    }
}

fn dense_output() -> TokenTensor2D<i8, f32> {
    TokenTensor2D {
        buffer: vec![],
        shape: vec![1, 3],
        scale: vec![0.9],
        zero_point: vec![10],
    }
}

fn dense_input() -> TokenTensor2D<i8, f32> {
    TokenTensor2D {
        buffer: vec![],
        shape: vec![1, 2],
        scale: vec![0.17],
        zero_point: vec![18],
    }
}

fn dense_biases() -> TokenTensor2D<i32, f32> {
    TokenTensor2D {
        buffer: vec![vec![19, 20, 21]],
        shape: vec![3, 1],
        scale: vec![0.22],
        zero_point: vec![23],
    }
}

#[test]
fn fully_connected_preprocess() {
    let constants = TokenFullyConnected::preprocess(
        &dense_input(),
        &dense_weights(),
        &dense_biases(),
        &dense_output(),
        &ARITHMETIC,
    );
    assert_eq!(constants.0, vec![-0.9777778, -0.73333335, -0.4888889]);
    assert_eq!(constants.1, vec![0.13222224, 0.13222224, 0.13222224]);
    assert_eq!(constants.2, vec![90 - 288, 126 - 288, 162 - 288]);
}

#[test]
fn fully_connected_preprocess_per_channel_weights() {
    // Per-channel weights with the per-tensor values repeated: identical
    // constants (the per-channel path must degenerate to the per-tensor one).
    let weights = TokenTensor2D {
        buffer: vec![vec![1, 4], vec![2, 5], vec![3, 6]],
        shape: vec![2, 3],
        scale: vec![0.7, 0.7, 0.7],
        zero_point: vec![8, 8, 8],
    };
    let constants = TokenFullyConnected::preprocess(
        &dense_input(),
        &weights,
        &dense_biases(),
        &dense_output(),
        &ARITHMETIC,
    );
    assert_eq!(constants.1, vec![0.13222224, 0.13222224, 0.13222224]);
    assert_eq!(constants.2, vec![90 - 288, 126 - 288, 162 - 288]);
}

#[test]
fn undefined_constants() {
    let preprocess = |input, weights, biases, output| {
        TokenFullyConnected::checked_preprocess(&input, &weights, &biases, &output, &ARITHMETIC)
    };
    let no_scale = TokenTensor2D { scale: vec![], ..dense_output() };
    assert_eq!(preprocess(dense_input(), dense_weights(), dense_biases(), no_scale), None);
    let short = TokenTensor2D { buffer: vec![vec![19, 20]], ..dense_biases() };
    assert_eq!(preprocess(dense_input(), dense_weights(), short, dense_output()), None);
    let far = TokenTensor2D { buffer: vec![vec![i32::MIN, 20, 21]], ..dense_biases() };
    assert_eq!(preprocess(dense_input(), dense_weights(), far, dense_output()), None);
    let flat = TokenTensor2D { shape: vec![2], ..dense_weights() };
    assert_eq!(preprocess(dense_input(), flat, dense_biases(), dense_output()), None);
    let unquantized = TokenTensor2D { zero_point: vec![], ..dense_weights() };
    assert_eq!(checked_correction(&dense_input(), &unquantized, 0), None);
    assert_eq!(checked_correction(&dense_input(), &dense_weights(), 3), None);
    assert_eq!(checked_correction(&dense_input(), &dense_weights(), 1), Some(18 * (7 - 16)));
    let huge = TokenTensor2D { shape: vec![i32::MAX as usize, 3], ..dense_weights() };
    assert_eq!(checked_correction(&dense_input(), &huge, 0), None);
}

#[test]
fn fully_connected_layers() {
    let layer = TokenFullyConnected::new(
        &dense_input(),
        dense_weights(),
        Some(dense_biases()),
        dense_output(),
        FusedActivation::Relu,
        4,
        1.0,
        &ARITHMETIC,
    );
    assert_eq!(layer.weights, dense_weights());
    assert_eq!(layer.output, dense_output());
    assert_eq!(layer.fused_activation, FusedActivation::Relu);
    assert_eq!(layer.index, 4);
    assert_eq!(layer.constants.2, vec![-198, -162, -126]);
    // A dropped bias is restored as zeros.
    let layer = TokenFullyConnected::checked_new(
        &dense_input(),
        dense_weights(),
        None,
        dense_output(),
        FusedActivation::Linear,
        4,
        1.0,
        &ARITHMETIC,
    )
    .unwrap();
    assert_eq!(layer.constants.0, vec![0.0, 0.0, 0.0]);
    assert_eq!(layer.constants.2, vec![-198, -162, -126]);
}

#[test]
fn bias_tensors() {
    assert_eq!(bias_input(&[0, 1, 2]), Some(2));
    assert_eq!(bias_input(&[0, 1, -1]), None);
    assert_eq!(bias_input(&[0, 1]), None);
    let zeros = zero_bias(3, 1.0f32);
    assert_eq!(zeros.buffer, vec![vec![0, 0, 0]]);
    assert_eq!(zeros.shape, vec![3, 1]);
    assert_eq!(zeros.scale, vec![1.0]);
    assert_eq!(zeros.zero_point, vec![0]);
    assert_eq!(repeated(7u8, 3), vec![7, 7, 7]);
    assert_eq!(channel_entry(&[1, 2], 1), 2);
    assert_eq!(channel_entry(&[1, 2], 5), 1);
}

fn conv_options(padding: TensorViewPadding, stride_w: i32, stride_h: i32) -> Conv2DOptions {
    Conv2DOptions {
        padding,
        stride_w,
        stride_h,
        fused_activation: FusedActivation::Relu,
    }
}

#[test]
fn conv_1d_shape_checks() {
    let valid = conv_options(TensorViewPadding::Valid, 1, 1);
    let check = |filters: &[usize], input: &[usize], output: &[usize], options: Conv2DOptions| {
        checked_plan_stride(7, filters, input, output, &options)
    };
    let filters = [8, 1, 3, 2];
    let input = [1, 1, 10, 2];
    let output = [1, 1, 8, 8];
    assert_eq!(check(&filters, &input, &output, valid), Some(Ok(1)));
    assert_eq!(
        check(&[8, 3, 2], &input, &output, valid),
        Some(Err(Conv1DError::FiltersRank { index: 7, shape: vec![8, 3, 2] }))
    );
    assert_eq!(
        check(&[8, 2, 3, 2], &input, &output, valid),
        Some(Err(Conv1DError::FiltersHeight { index: 7, height: 2 }))
    );
    assert_eq!(
        check(&filters, &[1, 2, 10, 2], &output, valid),
        Some(Err(Conv1DError::Input { index: 7, shape: vec![1, 2, 10, 2] }))
    );
    assert_eq!(
        check(&filters, &[1, 1, 10, 3], &output, valid),
        Some(Err(Conv1DError::Channels { index: 7, filters: 2, input: 3 }))
    );
    assert_eq!(
        check(&filters, &input, &output, conv_options(TensorViewPadding::Valid, 1, 2)),
        Some(Err(Conv1DError::StrideHeight { index: 7, stride_h: 2 }))
    );
    assert_eq!(
        check(&filters, &[1, 1, 2, 2], &output, valid),
        Some(Err(Conv1DError::EmptyOutput { index: 7, timesteps: 2, kernel: 3 }))
    );
    assert_eq!(
        check(&filters, &input, &[1, 8, 8], valid),
        Some(Err(Conv1DError::Output { index: 7, shape: vec![1, 8, 8] }))
    );
    assert_eq!(
        check(&filters, &input, &[1, 1, 9, 8], valid),
        Some(Err(Conv1DError::Geometry {
            index: 7,
            shape: vec![1, 1, 9, 8],
            timesteps: 10,
            kernel: 3,
            stride: 1,
            same: false,
            expected: 8,
            filters: 8,
        }))
    );
    assert_eq!(
        check(&filters, &input, &[1, 1, 5, 8], conv_options(TensorViewPadding::Same, 2, 1)),
        Some(Ok(2))
    );
    // No windows can be counted at stride zero.
    assert_eq!(
        check(&filters, &input, &output, conv_options(TensorViewPadding::Valid, 0, 1)),
        None
    );
}

fn conv_tensor(buffer: Vec<i8>, shape: &[usize], scale: &[f32]) -> TokenTensor4D<i8, f32> {
    TokenTensor4D {
        buffer,
        shape: shape.to_vec(),
        scale: scale.to_vec(),
        zero_point: vec![0; scale.len()],
    }
}

fn rescale(raw: i32, bias: f32, input: f32, filter: f32) -> i32 {
    (raw as f64 * bias as f64 / (input as f64 * filter as f64)).round() as i32
}

#[test]
fn conv_1d_layers() {
    let input = conv_tensor(vec![], &[1, 1, 6, 1], &[0.5]);
    let filters = || conv_tensor(vec![1, 2, 3, 4, 5, 6], &[2, 1, 3, 1], &[0.25, 0.5]);
    let output = || conv_tensor(vec![], &[1, 1, 4, 2], &[0.29]);
    let biases = || TokenTensor2D {
        buffer: vec![vec![10, 20]],
        shape: vec![2, 1],
        scale: vec![0.125, 0.5],
        zero_point: vec![0, 0],
    };
    let options = conv_options(TensorViewPadding::Valid, 1, 1);
    let layer =
        TokenConv1D::new(&input, filters(), Some(biases()), output(), &options, 1, 1.0, &rescale)
            .unwrap();
    assert_eq!(layer.filters, filters());
    assert_eq!(layer.output, output());
    // 0.125 is the scale of the accumulator for the first filter; the second
    // bias is in units twice as large.
    assert_eq!(layer.biases.buffer, vec![vec![10, 40]]);
    assert_eq!(layer.biases.shape, vec![2, 1]);
    assert_eq!(layer.biases.scale, vec![1.0, 1.0]);
    assert_eq!(layer.biases.zero_point, vec![0, 0]);
    assert_eq!(layer.fused_activation, FusedActivation::Relu);
    assert_eq!(layer.view_padding, TensorViewPadding::Valid);
    assert_eq!(layer.stride, 1);
    assert_eq!(layer.index, 1);
    // A dropped bias is restored as zeros.
    let layer =
        TokenConv1D::checked_new(&input, filters(), None, output(), &options, 1, 1.0, &rescale)
            .unwrap()
            .unwrap();
    assert_eq!(layer.biases.buffer, vec![vec![0, 0]]);
    // A bias of the wrong length cannot be converted.
    let short = TokenTensor2D { buffer: vec![vec![10]], ..biases() };
    assert_eq!(
        TokenConv1D::checked_new(
            &input,
            filters(),
            Some(short),
            output(),
            &options,
            1,
            1.0,
            &rescale
        ),
        None
    );
    assert!(matches!(
        TokenConv1D::new(
            &input,
            conv_tensor(vec![], &[2, 2, 3, 1], &[0.25]),
            None,
            output(),
            &options,
            1,
            1.0,
            &rescale
        ),
        Err(Conv1DError::FiltersHeight { index: 1, height: 2 })
    ));
    let converted =
        TokenConv1D::to_accumulator_units(&biases(), &input, &filters(), 1.0, &rescale).unwrap();
    assert_eq!(converted.buffer, vec![vec![10, 40]]);
}

fn tensor(shape: Option<Vec<i32>>, type_: TensorType) -> Tensor {
    Tensor { name: None, shape, type_, buffer: 0, zero_point: Some(vec![-128]) }
}

fn int8(shape: &[i32]) -> Tensor {
    tensor(Some(shape.to_vec()), TensorType::INT8)
}

fn operator(opcode_index: u32, inputs: &[i32], output: i32, options: BuiltinOptions) -> Operator {
    Operator {
        opcode_index,
        inputs: Some(inputs.to_vec()),
        outputs: Some(vec![output]),
        options,
    }
}

fn graph(tensors: Vec<Tensor>, operators: Vec<Operator>) -> Graph {
    let code = |kind: BuiltinOperator| OperatorCode {
        deprecated_builtin_code: kind.code() as i8,
        builtin_code: kind.code(),
    };
    Graph {
        operators,
        operator_codes: vec![
            code(BuiltinOperator::CONV_2D),
            code(BuiltinOperator::FULLY_CONNECTED),
            code(BuiltinOperator::SOFTMAX),
            code(BuiltinOperator::RESHAPE),
            code(BuiltinOperator::DEPTHWISE_CONV_2D),
            code(BuiltinOperator::AVERAGE_POOL_2D),
            code(BuiltinOperator::TRANSPOSE),
        ],
        tensors,
        buffers: vec![Buffer { data: None }],
    }
}

#[test]
fn model_inputs() {
    let plan = |shape: Option<Vec<i32>>, type_| {
        checked_plan_input(&graph(vec![tensor(shape, type_)], vec![]), 0)
    };
    let ok = |shape: &[i32]| plan(Some(shape.to_vec()), TensorType::UINT8).unwrap().unwrap();
    let input = ok(&[5]);
    assert_eq!((input.shape, input.user_shape, input.relabeled), (vec![1, 5], vec![1, 5], false));
    assert_eq!(input.element, ElementType::U8);
    let input = ok(&[1, 128, 3]);
    assert_eq!(
        (input.shape, input.user_shape, input.relabeled),
        (vec![1, 1, 128, 3], vec![128, 3], true)
    );
    assert_eq!(input.raw_shape, vec![1, 128, 3]);
    let input = ok(&[2, 3]);
    assert_eq!((input.shape, input.user_shape, input.relabeled), (vec![2, 3], vec![2, 3], false));
    let input = ok(&[1, 2, 3, 4]);
    assert_eq!(input.shape, vec![1, 2, 3, 4]);
    assert_eq!(
        plan(Some(vec![2, 128, 3]), TensorType::INT8),
        Some(Err(InputError::Batch { shape: vec![2, 128, 3] }))
    );
    assert_eq!(
        plan(Some(vec![1, 2, 3, 4, 5]), TensorType::INT8),
        Some(Err(InputError::Rank { shape: vec![1, 2, 3, 4, 5] }))
    );
    assert_eq!(
        plan(Some(vec![]), TensorType::INT8),
        Some(Err(InputError::Rank { shape: vec![] }))
    );
    assert_eq!(
        plan(Some(vec![1, 2]), TensorType::OTHER(0)),
        Some(Err(InputError::Type { type_: TensorType::OTHER(0) }))
    );
    assert_eq!(plan(None, TensorType::INT8), None);
}

#[test]
fn zero_points_are_truncated() {
    assert_eq!(zero_points_i8(&[-128, 127, 300]), vec![-128, 127, 44]);
    assert_eq!(zero_points_u8(&[0, 255, -1]), vec![0, 255, 255]);
}

#[test]
fn one_dimensional_convolutions() {
    let tensors = vec![int8(&[8, 1, 3, 2]), int8(&[8, 2, 3, 2]), tensor(None, TensorType::INT8)];
    let conv = |inputs: &[i32], stride_h: i32| {
        operator(
            0,
            inputs,
            0,
            BuiltinOptions::Conv2D(conv_options(TensorViewPadding::Valid, 1, stride_h)),
        )
    };
    assert!(is_conv_1d(&conv(&[0, 0], 1), &tensors));
    assert!(!is_conv_1d(&conv(&[0, 0], 2), &tensors));
    assert!(!is_conv_1d(&conv(&[0, 1], 1), &tensors));
    assert!(!is_conv_1d(&conv(&[0, 2], 1), &tensors));
    assert!(!is_conv_1d(&conv(&[0], 1), &tensors));
    assert!(!is_conv_1d(&conv(&[0, -1], 1), &tensors));
    assert_eq!(checked_is_conv_1d(&conv(&[0, 3], 1), &tensors), None);
    // Without options the stride counts as one.
    assert!(is_conv_1d(&operator(0, &[0, 0], 0, BuiltinOptions::Other), &tensors));
}

/// A network of a 1-D convolution and a dense layer.
fn network() -> Graph {
    graph(
        vec![
            int8(&[1, 10, 2]),
            int8(&[8, 1, 3, 2]),
            int8(&[1, 8, 8]),
            int8(&[4, 64]),
            int8(&[1, 4]),
            int8(&[1, 4]),
        ],
        vec![
            operator(
                0,
                &[0, 1],
                2,
                BuiltinOptions::Conv2D(conv_options(TensorViewPadding::Valid, 1, 1)),
            ),
            operator(
                1,
                &[2, 3, -1],
                4,
                BuiltinOptions::FullyConnected { fused_activation: FusedActivation::Linear },
            ),
            operator(2, &[4], 5, BuiltinOptions::Other),
        ],
    )
}

#[test]
fn plans_of_models() {
    let plan = model(&network(), 0, 5, false).unwrap();
    assert_eq!(plan.input.user_shape, vec![10, 2]);
    assert_eq!(plan.zero_points, ZeroPoints::I8(vec![-128]));
    assert_eq!(
        plan.layers.steps,
        vec![
            Step::Layer {
                kind: LayerKind::Conv1D,
                index: 0,
                input_shape: vec![1, 1, 10, 2],
                output_shape: vec![1, 1, 8, 8],
            },
            Step::Reshape { shape: vec![1, 64] },
            Step::Layer {
                kind: LayerKind::FullyConnected,
                index: 1,
                input_shape: vec![1, 64],
                output_shape: vec![1, 4],
            },
            Step::Layer {
                kind: LayerKind::Softmax,
                index: 2,
                input_shape: vec![1, 4],
                output_shape: vec![1, 4],
            },
        ]
    );
    let output = plan.layers.ending.unwrap();
    assert_eq!(output.element, ElementType::I8);
    assert_eq!(output.shape, vec![1, 4]);
}

#[test]
fn forced_conv_2d() {
    let plan = model(&network(), 0, 5, true).unwrap();
    assert!(matches!(
        plan.layers.steps[0],
        Step::Layer { kind: LayerKind::Conv2D, .. }
    ));
}

#[test]
fn model_failures() {
    let mut untyped = network();
    untyped.tensors[0].type_ = TensorType::OTHER(0);
    assert_eq!(
        model(&untyped, 0, 5, false),
        Err(ModelError::Input(InputError::Type { type_: TensorType::OTHER(0) }))
    );
    let mut unquantized = network();
    unquantized.tensors[0].zero_point = None;
    assert_eq!(checked_model(&unquantized, 0, 5, false), None);
    let mut cut = network();
    cut.operators.truncate(2);
    assert_eq!(
        model(&cut, 0, 5, false),
        Err(ModelError::Fold(FoldError::OutputNotProduced))
    );
    // The steps before a failure are planned.
    let mut output_type = network();
    output_type.tensors[5].type_ = TensorType::OTHER(0);
    let plan = model(&output_type, 0, 5, false).unwrap();
    assert_eq!(plan.layers.steps.len(), 4);
    assert_eq!(
        plan.layers.ending,
        Err(Failure::OutputType { type_: TensorType::OTHER(0) })
    );
    let mut no_filters = network();
    no_filters.operators[0].inputs = Some(vec![0, 99]);
    let plan = model(&no_filters, 0, 5, false).unwrap();
    assert_eq!(plan.layers.ending, Err(Failure::Filters { index: 0 }));
    assert_eq!(plan.layers.steps, vec![]);
    assert_eq!(checked_model(&network(), 99, 5, false), None);
}

fn folded_op(kind: BuiltinOperator, from: &[usize], to: &[usize]) -> FoldedOp {
    FoldedOp {
        index: 0,
        kind,
        input_shape: from.to_vec(),
        output_shape: to.to_vec(),
    }
}

#[test]
fn plan_failures() {
    let graph = network();
    let ending = |op: FoldedOp, output_shape: &[usize], output: usize| {
        let folded = FoldedGraph { ops: vec![op], output_shape: output_shape.to_vec() };
        plan_layers(&graph, &folded, output, &[1, 6], false).ending
    };
    assert_eq!(
        ending(folded_op(BuiltinOperator::SOFTMAX, &[2, 3], &[2, 3]), &[2, 3], 5),
        Err(Failure::Conversion {
            kind: BuiltinOperator::SOFTMAX,
            index: 0,
            error: ConversionError::Unsupported { from: vec![1, 6], to: vec![2, 3] }
        })
    );
    assert_eq!(
        ending(folded_op(BuiltinOperator::SOFTMAX, &[usize::MAX, 2], &[1, 6]), &[1, 6], 5),
        Err(Failure::Count)
    );
    assert_eq!(
        ending(folded_op(BuiltinOperator::ADD, &[1, 6], &[1, 6]), &[1, 6], 5),
        Err(Failure::Operator { kind: BuiltinOperator::ADD })
    );
    assert_eq!(
        ending(folded_op(BuiltinOperator::SOFTMAX, &[1, 6], &[1, 6]), &[6, 1], 5),
        Err(Failure::Output {
            error: ConversionError::Unsupported { from: vec![1, 6], to: vec![6, 1] }
        })
    );
    assert_eq!(
        ending(folded_op(BuiltinOperator::SOFTMAX, &[1, 6], &[1, 6]), &[1, 6], 99),
        Err(Failure::OutputTensor)
    );
    assert_eq!(
        ending(folded_op(BuiltinOperator::SOFTMAX, &[1, 6], &[1, 2, 3]), &[1, 2, 3], 5),
        Err(Failure::OutputRank { rank: 3 })
    );
}

#[test]
fn kernels_of_operators() {
    let graph = network();
    let kind = |kind, from: &[usize]| layer_kind(&graph, &folded_op(kind, from, &[1, 1]), false);
    assert_eq!(kind(BuiltinOperator::CONV_2D, &[1, 1, 10, 2]), Ok(LayerKind::Conv1D));
    assert_eq!(kind(BuiltinOperator::CONV_2D, &[1, 2, 10, 2]), Ok(LayerKind::Conv2D));
    assert_eq!(
        kind(BuiltinOperator::DEPTHWISE_CONV_2D, &[1, 1, 10, 2]),
        Ok(LayerKind::DepthwiseConv2D)
    );
    assert_eq!(
        kind(BuiltinOperator::AVERAGE_POOL_2D, &[1, 1, 10, 2]),
        Ok(LayerKind::AveragePool2D)
    );
    assert_eq!(kind(BuiltinOperator::TRANSPOSE, &[1, 2]), Ok(LayerKind::Transpose));
    assert_eq!(kind(BuiltinOperator::SOFTMAX, &[1, 2]), Ok(LayerKind::Softmax));
}

/// Every step takes the shape that the steps before it leave.
#[test]
fn steps_line_up() {
    let graph = network();
    let folded = fold(&graph, 0, 5, &[1, 10, 2]).unwrap();
    let plan = plan_layers(&graph, &folded, 5, &[1, 1, 10, 2], false);
    let mut current = vec![1usize, 1, 10, 2];
    let mut layers = vec![];
    for step in plan.steps {
        match step {
            Step::Reshape { shape } => {
                assert_eq!(
                    shape.iter().product::<usize>(),
                    current.iter().product::<usize>()
                );
                current = shape;
            }
            Step::Layer { index, input_shape, output_shape, .. } => {
                assert_eq!(input_shape, current);
                current = output_shape;
                layers.push(index);
            }
        }
    }
    assert_eq!(current, plan.ending.unwrap().shape);
    assert_eq!(layers, folded.ops.iter().map(|op| op.index).collect::<Vec<_>>());
}

#[test]
fn elements_by_columns() {
    assert_eq!(
        checked_columns(&[1, 2, 3, 4, 5, 6], 2, 3),
        Some(vec![vec![1, 2, 3], vec![4, 5, 6]])
    );
    assert_eq!(checked_columns(&[1, 2, 3], 2, 2), None);
    assert_eq!(checked_columns(&[1u8], usize::MAX, 2), None);
    assert_eq!(checked_columns::<u8>(&[], 2, 0), Some(vec![vec![], vec![]]));
}

/// The compiler and the kernel count the same windows.
#[test]
fn planned_layers_match_the_kernel() {
    for timesteps in 1..20usize {
        for kernel in 1..5usize {
            for stride in 1..4usize {
                assert_eq!(
                    output_len(timesteps, kernel, stride, true),
                    ops::conv_1d::output_len(timesteps, kernel, stride, TensorViewPadding::Same)
                );
                assert_eq!(
                    output_len(timesteps, kernel, stride, false),
                    ops::conv_1d::output_len(timesteps, kernel, stride, TensorViewPadding::Valid)
                );
            }
        }
    }
}
