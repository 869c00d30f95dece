//! What holds of the generated code of every model.
use crate::compiler::conversion;
use crate::compiler::conversion::ConversionError;
use crate::compiler::fold;
use crate::compiler::fold::FoldedOpView;
use crate::compiler::fold_laws;
use crate::compiler::plan;
use crate::compiler::plan::{Failure, InputError, LayerKind, Step};
use crate::compiler::schema;
use crate::compiler::schema::{BuiltinOptions, ElementType, Graph, Operator, Tensor};
use crate::compiler::shape;
use crate::sums;
use vstd::prelude::*;

verus! {

/// Whether data of one shape can be handed on under another by one reshape:
/// the rank changes between 2 and 4, and the element count and the batch
/// dimension stay.
pub open spec fn reshapes_to(from: Seq<usize>, to: Seq<usize>) -> bool {
    &&& (from.len() == 2 && to.len() == 4) || (from.len() == 4 && to.len() == 2)
    &&& shape::count(from) == shape::count(to)
    &&& from[0] == to[0]
}

/// The shape of the data after the first `n` steps; `None` where a step does
/// not take the shape that the steps before it leave.
pub open spec fn shape_after(
    start: Seq<usize>,
    steps: Seq<Step<Seq<usize>>>,
    n: nat,
) -> Option<Seq<usize>>
    decreases n,
{
    if n == 0 {
        Some(start)
    } else {
        match shape_after(start, steps, (n - 1) as nat) {
            None => None,
            Some(current) => match steps[n - 1] {
                Step::Reshape { shape } => if reshapes_to(current, shape) {
                    Some(shape)
                } else {
                    None
                },
                Step::Layer { input_shape, output_shape, .. } => if input_shape == current {
                    Some(output_shape)
                } else {
                    None
                },
            },
        }
    }
}

/// Later steps do not change the shape after earlier ones.
proof fn lemma_shape_after_prefix(
    start: Seq<usize>,
    steps: Seq<Step<Seq<usize>>>,
    more: Seq<Step<Seq<usize>>>,
    n: nat,
)
    requires
        n <= steps.len(),
    ensures
        shape_after(start, steps + more, n) == shape_after(start, steps, n),
    decreases n,
{
    if n > 0 {
        lemma_shape_after_prefix(start, steps, more, (n - 1) as nat);
        assert((steps + more)[n - 1] == steps[n - 1]);
    }
}

/// A conversion takes the data from one shape to the other.
proof fn lemma_conversion_lines_up(
    start: Seq<usize>,
    steps: Seq<Step<Seq<usize>>>,
    from: Seq<usize>,
    to: Seq<usize>,
)
    requires
        shape_after(start, steps, steps.len()) == Some(from),
        conversion::conversion(from, to) matches Some(Ok(_)),
    ensures
        ({
            let all = steps + plan::reshapes(conversion::conversion(from, to)->Some_0->Ok_0);
            shape_after(start, all, all.len()) == Some(to)
        }),
{
    let shapes = conversion::conversion(from, to)->Some_0->Ok_0;
    let more = plan::reshapes(shapes);
    let all = steps + more;
    conversion::law_conversion_keeps_data(from, to);
    lemma_shape_after_prefix(start, steps, more, steps.len());
    if shapes.len() == 0 {
        assert(all =~= steps);
    } else {
        assert(shapes.len() <= 2);
        let first = steps.len() + 1;
        assert(all[first - 1] == more[0]);
        assert(reshapes_to(from, shapes[0]));
        assert(shape_after(start, all, first) == Some(shapes[0]));
        if shapes.len() == 2 {
            assert(all[first as int] == more[1]);
            assert(reshapes_to(shapes[0], shapes[1]));
            assert(shape_after(start, all, first + 1) == Some(shapes[1]));
        }
    }
}

/// Every step takes the shape that the steps before it leave.
proof fn lemma_progress_lines_up(
    graph: Graph,
    ops: Seq<FoldedOpView>,
    input_shape: Seq<usize>,
    force_conv_2d: bool,
    n: nat,
)
    requires
        n <= ops.len(),
    ensures
        ({
            let p = plan::progress(graph, ops, input_shape, force_conv_2d, n);
            shape_after(input_shape, p.steps, p.steps.len()) == Some(p.current)
        }),
    decreases n,
{
    if n > 0 {
        lemma_progress_lines_up(graph, ops, input_shape, force_conv_2d, (n - 1) as nat);
        let before = plan::progress(graph, ops, input_shape, force_conv_2d, (n - 1) as nat);
        let after = plan::progress(graph, ops, input_shape, force_conv_2d, n);
        let op = ops[n - 1];
        if before.failure is None {
            if let Some(Ok(shapes)) = conversion::conversion(before.current, op.input_shape) {
                lemma_conversion_lines_up(
                    input_shape,
                    before.steps,
                    before.current,
                    op.input_shape,
                );
                let converted = before.steps + plan::reshapes(shapes);
                if let Ok(kind) = plan::route(graph, op, force_conv_2d) {
                    let layer = Step::Layer {
                        kind,
                        index: op.index,
                        input_shape: op.input_shape,
                        output_shape: op.output_shape,
                    };
                    assert(after.steps =~= converted + seq![layer]);
                    lemma_shape_after_prefix(
                        input_shape,
                        converted,
                        seq![layer],
                        converted.len(),
                    );
                }
            }
        }
    }
}

/// The generated code lines up: every step takes exactly the shape that the
/// steps before it leave, starting at the shape of the model input, and where
/// the model output is reached, the data has its shape.
pub proof fn law_steps_line_up(
    graph: Graph,
    ops: Seq<FoldedOpView>,
    output_shape: Seq<usize>,
    output: usize,
    input_shape: Seq<usize>,
    force_conv_2d: bool,
)
    ensures
        ({
            let planned = plan::planned_layers(
                graph,
                ops,
                output_shape,
                output,
                input_shape,
                force_conv_2d,
            );
            let reached = shape_after(input_shape, planned.steps, planned.steps.len());
            &&& reached is Some
            &&& planned.ending matches Ok(end) ==> reached == Some(end.shape)
        }),
{
    lemma_progress_lines_up(graph, ops, input_shape, force_conv_2d, ops.len());
    let last = plan::progress(graph, ops, input_shape, force_conv_2d, ops.len());
    if last.failure is None {
        if let Some(Ok(shapes)) = conversion::conversion(last.current, output_shape) {
            lemma_conversion_lines_up(input_shape, last.steps, last.current, output_shape);
        }
    }
}

/// The operators of the layers among some steps, in order.
pub open spec fn layer_indexes(steps: Seq<Step<Seq<usize>>>) -> Seq<usize>
    decreases steps.len(),
{
    if steps.len() == 0 {
        Seq::empty()
    } else {
        let before = layer_indexes(steps.drop_last());
        match steps.last() {
            Step::Reshape { .. } => before,
            Step::Layer { index, .. } => before.push(index),
        }
    }
}

/// Reshapes add no layer.
proof fn lemma_reshapes_add_no_layer(steps: Seq<Step<Seq<usize>>>, shapes: Seq<Seq<usize>>)
    ensures
        layer_indexes(steps + plan::reshapes(shapes)) == layer_indexes(steps),
    decreases shapes.len(),
{
    let all = steps + plan::reshapes(shapes);
    if shapes.len() == 0 {
        assert(all =~= steps);
    } else {
        lemma_reshapes_add_no_layer(steps, shapes.drop_last());
        assert(all.drop_last() =~= steps + plan::reshapes(shapes.drop_last()));
        assert(all.last() == plan::reshapes(shapes).last());
    }
}

/// The layers so far are the operators so far.
proof fn lemma_progress_keeps_operators(
    graph: Graph,
    ops: Seq<FoldedOpView>,
    input_shape: Seq<usize>,
    force_conv_2d: bool,
    n: nat,
)
    requires
        n <= ops.len(),
        plan::progress(graph, ops, input_shape, force_conv_2d, n).failure is None,
    ensures
        layer_indexes(plan::progress(graph, ops, input_shape, force_conv_2d, n).steps) == Seq::new(
            n,
            |k: int| ops[k].index,
        ),
    decreases n,
{
    let p = plan::progress(graph, ops, input_shape, force_conv_2d, n);
    if n == 0 {
        assert(layer_indexes(p.steps) =~= Seq::new(n, |k: int| ops[k].index));
    } else {
        lemma_progress_keeps_operators(graph, ops, input_shape, force_conv_2d, (n - 1) as nat);
        let before = plan::progress(graph, ops, input_shape, force_conv_2d, (n - 1) as nat);
        let shapes = conversion::conversion(
            before.current,
            ops[n - 1].input_shape,
        )->Some_0->Ok_0;
        lemma_reshapes_add_no_layer(before.steps, shapes);
        assert(p.steps.drop_last() =~= before.steps + plan::reshapes(shapes));
        assert(layer_indexes(p.steps) =~= Seq::new(n, |k: int| ops[k].index));
    }
}

/// Where the model output is reached, the layers are the real operators, one
/// for one and in execution order.
pub proof fn law_layers_are_the_operators(
    graph: Graph,
    ops: Seq<FoldedOpView>,
    output_shape: Seq<usize>,
    output: usize,
    input_shape: Seq<usize>,
    force_conv_2d: bool,
)
    requires
        plan::planned_layers(
            graph,
            ops,
            output_shape,
            output,
            input_shape,
            force_conv_2d,
        ).ending is Ok,
    ensures
        layer_indexes(
            plan::planned_layers(
                graph,
                ops,
                output_shape,
                output,
                input_shape,
                force_conv_2d,
            ).steps,
        ) == Seq::new(ops.len(), |k: int| ops[k].index),
{
    let last = plan::progress(graph, ops, input_shape, force_conv_2d, ops.len());
    lemma_progress_keeps_operators(graph, ops, input_shape, force_conv_2d, ops.len());
    lemma_reshapes_add_no_layer(
        last.steps,
        conversion::conversion(last.current, output_shape)->Some_0->Ok_0,
    );
}

/// The dedicated kernel is called for a convolution over a single row with
/// filters one row high that do not stride over rows, and for nothing else;
/// never where `force_conv_2d` is set.
pub proof fn law_conv_1d_is_the_one_row_case(graph: Graph, op: FoldedOpView, force_conv_2d: bool)
    ensures
        plan::route(graph, op, force_conv_2d) == Ok::<LayerKind, Failure<Seq<usize>>>(
            LayerKind::Conv1D,
        ) <==> {
            &&& !force_conv_2d
            &&& op.kind is CONV_2D
            &&& op.input_shape.len() == 4
            &&& op.input_shape[1] == 1
            &&& plan::strides_over_time(graph.operators@[op.index as int], graph.tensors@) == Some(
                true,
            )
        },
{
}

/// Every operator that folding leaves has a kernel.
pub proof fn law_folded_operators_have_kernels(
    graph: Graph,
    input: usize,
    output: usize,
    raw_input_shape: Seq<usize>,
    force_conv_2d: bool,
    k: int,
)
    requires
        fold::folded(graph, input, output, raw_input_shape) matches Some(Ok(_)),
        0 <= k < fold::folded(graph, input, output, raw_input_shape)->Some_0->Ok_0.ops.len(),
    ensures
        !(plan::route(
            graph,
            fold::folded(graph, input, output, raw_input_shape)->Some_0->Ok_0.ops[k],
            force_conv_2d,
        ) matches Err(Failure::Operator { .. })),
{
    fold_laws::law_real_operators_remain(graph, input, output, raw_input_shape);
    let op = fold::folded(graph, input, output, raw_input_shape)->Some_0->Ok_0.ops[k];
    assert(fold_laws::kept_op(graph, op));
}

/// The shape that the layers see of a model input holds as many elements as
/// the shape in the file and the shape that the user hands over, and has
/// rank 2 or 4.
pub proof fn law_input_shapes_agree(element: ElementType, raw: Seq<usize>)
    requires
        plan::planned_shape(element, raw) is Ok,
    ensures
        ({
            let planned = plan::planned_shape(element, raw)->Ok_0;
            &&& shape::count(planned.shape) == shape::count(raw)
            &&& shape::count(planned.user_shape) == shape::count(raw)
            &&& planned.shape.len() == 2 || planned.shape.len() == 4
            &&& planned.relabeled <==> planned.shape != planned.user_shape
        }),
{
    let planned = plan::planned_shape(element, raw)->Ok_0;
    if raw.len() == 1 {
        shape::lemma_count_leading_one(planned.shape);
        assert(planned.shape.skip(1) =~= raw);
    } else if raw.len() == 3 {
        shape::lemma_count_leading_one(raw);
        assert(raw.skip(1) =~= planned.user_shape);
        shape::lemma_count_leading_one(planned.shape);
        assert(planned.shape.skip(1) =~= raw);
        assert(planned.shape.len() != planned.user_shape.len());
    }
}

/// The data has as many elements as what reaches the next operator.
proof fn lemma_progress_counts(
    graph: Graph,
    ops: Seq<FoldedOpView>,
    raw_input_shape: Seq<usize>,
    input_shape: Seq<usize>,
    force_conv_2d: bool,
    n: nat,
)
    requires
        n <= ops.len(),
        shape::count(input_shape) == shape::count(raw_input_shape),
        forall|k: int|
            0 <= k < ops.len() ==> shape::count((#[trigger] ops[k]).input_shape) == shape::count(
                fold_laws::incoming_shape(raw_input_shape, ops, k),
            ),
    ensures
        ({
            let p = plan::progress(graph, ops, input_shape, force_conv_2d, n);
            &&& p.failure is None ==> shape::count(p.current) == shape::count(
                fold_laws::incoming_shape(raw_input_shape, ops, n as int),
            )
            &&& !(p.failure matches Some(
                Failure::Conversion { error: ConversionError::CountMismatch { .. }, .. },
            ))
        }),
    decreases n,
{
    if n > 0 {
        lemma_progress_counts(
            graph,
            ops,
            raw_input_shape,
            input_shape,
            force_conv_2d,
            (n - 1) as nat,
        );
        let op = ops[n - 1];
        assert(shape::count(op.input_shape) == shape::count(
            fold_laws::incoming_shape(raw_input_shape, ops, n - 1),
        ));
    }
}

/// No layer is ever refused because its element count differs from that of
/// the data that reaches it.
pub proof fn law_layers_agree_on_element_counts(
    graph: Graph,
    input: usize,
    output: usize,
    raw_input_shape: Seq<usize>,
    element: ElementType,
    force_conv_2d: bool,
)
    requires
        fold::folded(graph, input, output, raw_input_shape) matches Some(Ok(_)),
        plan::planned_shape(element, raw_input_shape) is Ok,
        shape::count(raw_input_shape) == fold_laws::declared_count(graph, input as int),
        fold_laws::counts_within_i64(graph, input),
    ensures
        ({
            let folded = fold::folded(graph, input, output, raw_input_shape)->Some_0->Ok_0;
            let planned = plan::planned_layers(
                graph,
                folded.ops,
                folded.output_shape,
                output,
                plan::planned_shape(element, raw_input_shape)->Ok_0.shape,
                force_conv_2d,
            );
            !(planned.ending matches Err(
                Failure::Conversion { error: ConversionError::CountMismatch { .. }, .. },
            ))
        }),
{
    let folded = fold::folded(graph, input, output, raw_input_shape)->Some_0->Ok_0;
    fold_laws::law_chain_keeps_count(graph, input, output, raw_input_shape);
    law_input_shapes_agree(element, raw_input_shape);
    lemma_progress_counts(
        graph,
        folded.ops,
        raw_input_shape,
        plan::planned_shape(element, raw_input_shape)->Ok_0.shape,
        force_conv_2d,
        folded.ops.len(),
    );
}

/// The layers see an input of rank 2 or 4 as it is, one of rank 1 with a
/// batch axis, and one of rank 3 with a batch of one and a row axis; the user
/// hands over that of rank 3 without its batch axis, and any other as the
/// layers see it. Any other input is refused with its shape.
pub proof fn law_input_shapes(element: ElementType, raw: Seq<usize>)
    ensures
        match plan::planned_shape(element, raw) {
            Ok(planned) => {
                &&& planned.element == element
                &&& planned.raw_shape == raw
                &&& raw.len() == 1 || raw.len() == 2 || raw.len() == 4 || (raw.len() == 3 && raw[0]
                    == 1)
                &&& raw.len() == 2 || raw.len() == 4 ==> planned.shape == raw
                &&& raw.len() == 1 ==> planned.shape.len() == 2 && planned.shape[0] == 1
                    && planned.shape[1] == raw[0]
                &&& raw.len() != 3 ==> planned.user_shape == planned.shape && !planned.relabeled
                &&& raw.len() == 3 ==> {
                    &&& planned.relabeled
                    &&& planned.shape.len() == 4
                    &&& planned.shape[0] == 1 && planned.shape[1] == 1
                    &&& planned.shape[2] == raw[1] && planned.shape[3] == raw[2]
                    &&& planned.user_shape.len() == 2
                    &&& planned.user_shape[0] == raw[1] && planned.user_shape[1] == raw[2]
                }
            },
            Err(InputError::Batch { shape }) => shape == raw && raw.len() == 3 && raw[0] != 1,
            Err(InputError::Rank { shape }) => shape == raw && (raw.len() == 0 || raw.len() > 4),
            Err(InputError::Type { .. }) => false,
        },
{
}

/// The input of a model has the elements and the shape that the file declares
/// for its tensor. Other elements than `INT8` and `UINT8` are refused before
/// the shape is looked at.
pub proof fn law_input_is_declared(graph: Graph, input: usize)
    ensures
        ({
            let tensor = graph.tensors@[input as int];
            match plan::planned_input(graph, input) {
                None => input >= graph.tensors@.len() || tensor.shape is None,
                Some(Ok(planned)) => {
                    &&& input < graph.tensors@.len() && tensor.shape is Some
                    &&& tensor.type_ is INT8 ==> planned.element is I8
                    &&& tensor.type_ is UINT8 ==> planned.element is U8
                    &&& tensor.type_ is INT8 || tensor.type_ is UINT8
                    &&& planned.raw_shape == schema::shape_of(tensor)
                    &&& plan::planned_shape(planned.element, schema::shape_of(tensor)) == Ok::<
                        plan::InputPlan<Seq<usize>>,
                        InputError<Seq<usize>>,
                    >(planned)
                },
                Some(Err(InputError::Type { type_ })) => type_ == tensor.type_ && !(type_ is INT8)
                    && !(type_ is UINT8),
                Some(Err(error)) => (tensor.type_ is INT8 || tensor.type_ is UINT8) && exists|
                    element: ElementType,
                |
                    #[trigger] plan::planned_shape(element, schema::shape_of(tensor)) == Err::<
                        plan::InputPlan<Seq<usize>>,
                        InputError<Seq<usize>>,
                    >(error),
            }
        }),
{
    let tensor = graph.tensors@[input as int];
    if let Some(element) = tensor.type_.element() {
        let planned = plan::planned_shape(element, schema::shape_of(tensor));
        if let Err(error) = planned {
            assert(plan::planned_shape(element, schema::shape_of(tensor)) == Err::<
                plan::InputPlan<Seq<usize>>,
                InputError<Seq<usize>>,
            >(error));
        }
    }
}

/// An operator is the one-row case of a convolution where its second input
/// is there, of rank 4 and one row high, and its options name no other stride
/// over rows than one.
pub proof fn law_one_row_case(operator: Operator, tensors: Seq<Tensor>)
    ensures
        ({
            let inputs = schema::entries(operator.inputs);
            let filters = tensors[inputs[1] as int];
            match plan::strides_over_time(operator, tensors) {
                None => inputs.len() >= 2 && inputs[1] >= tensors.len(),
                Some(true) => {
                    &&& inputs.len() >= 2 && 0 <= inputs[1] < tensors.len()
                    &&& filters.shape matches Some(shape)
                    &&& shape@.len() == 4 && shape@[1] == 1
                    &&& (operator.options matches BuiltinOptions::Conv2D(options)
                        ==> options.stride_h == 1)
                },
                Some(false) => {
                    ||| inputs.len() < 2
                    ||| inputs[1] < 0
                    ||| filters.shape is None
                    ||| filters.shape->Some_0@.len() != 4
                    ||| filters.shape->Some_0@[1] != 1
                    ||| (operator.options matches BuiltinOptions::Conv2D(options)
                        && options.stride_h != 1)
                },
            }
        }),
{
}

/// The kernel of each kind of operator.
pub proof fn law_kernels(graph: Graph, op: FoldedOpView, force_conv_2d: bool)
    ensures
        match plan::route(graph, op, force_conv_2d) {
            Ok(LayerKind::FullyConnected) => op.kind is FULLY_CONNECTED,
            Ok(LayerKind::DepthwiseConv2D) => op.kind is DEPTHWISE_CONV_2D,
            Ok(LayerKind::Conv1D) => op.kind is CONV_2D,
            Ok(LayerKind::Conv2D) => op.kind is CONV_2D,
            Ok(LayerKind::AveragePool2D) => op.kind is AVERAGE_POOL_2D,
            Ok(LayerKind::Softmax) => op.kind is SOFTMAX,
            Ok(LayerKind::Transpose) => op.kind is TRANSPOSE,
            Err(Failure::Filters { index }) => {
                &&& index == op.index
                &&& op.kind is CONV_2D
                &&& op.input_shape.len() == 4 && op.input_shape[1] == 1
                &&& plan::strides_over_time(
                    graph.operators@[op.index as int],
                    graph.tensors@,
                ) is None
            },
            Err(Failure::Operator { kind }) => {
                &&& kind == op.kind
                &&& !(kind is FULLY_CONNECTED) && !(kind is DEPTHWISE_CONV_2D) && !(kind is CONV_2D)
                &&& !(kind is AVERAGE_POOL_2D) && !(kind is SOFTMAX) && !(kind is TRANSPOSE)
            },
            Err(_) => false,
        },
{
}

/// The output of a model has the elements that the file declares for its
/// tensor, and the shape of the data. It is refused where the tensor is
/// missing, or its elements are neither `INT8` nor `UINT8`, or the rank is
/// neither 2 nor 4.
pub proof fn law_output_is_declared(graph: Graph, output: usize, shape: Seq<usize>)
    ensures
        ({
            let type_ = graph.tensors@[output as int].type_;
            match plan::planned_output(graph, output, shape) {
                Ok(end) => {
                    &&& output < graph.tensors@.len()
                    &&& (type_ is INT8 && end.element is I8) || (type_ is UINT8 && end.element
                        is U8)
                    &&& end.shape == shape
                    &&& shape.len() == 2 || shape.len() == 4
                },
                Err(Failure::OutputTensor) => output >= graph.tensors@.len(),
                Err(Failure::OutputType { type_: found }) => {
                    &&& output < graph.tensors@.len()
                    &&& found == type_ && !(type_ is INT8) && !(type_ is UINT8)
                },
                Err(Failure::OutputRank { rank }) => {
                    &&& output < graph.tensors@.len()
                    &&& type_ is INT8 || type_ is UINT8
                    &&& shape.len() != 2 && shape.len() != 4
                    &&& shape.len() <= usize::MAX ==> rank == shape.len()
                },
                Err(_) => false,
            }
        }),
{
}

/// Where the plan of some layers reaches the output, the elements of the
/// output are those that the file declares for its tensor.
pub proof fn law_planned_output_is_declared(
    graph: Graph,
    ops: Seq<FoldedOpView>,
    output_shape: Seq<usize>,
    output: usize,
    input_shape: Seq<usize>,
    force_conv_2d: bool,
)
    ensures
        plan::planned_layers(
            graph,
            ops,
            output_shape,
            output,
            input_shape,
            force_conv_2d,
        ).ending matches Ok(end) ==> {
            &&& output < graph.tensors@.len()
            &&& graph.tensors@[output as int].type_ is INT8 ==> end.element is I8
            &&& graph.tensors@[output as int].type_ is UINT8 ==> end.element is U8
            &&& graph.tensors@[output as int].type_ is INT8
                || graph.tensors@[output as int].type_ is UINT8
            &&& end.shape == output_shape
        },
{
}

/// The layers among some steps, in order.
pub open spec fn layers(steps: Seq<Step<Seq<usize>>>) -> Seq<Step<Seq<usize>>>
    decreases steps.len(),
{
    if steps.len() == 0 {
        Seq::empty()
    } else {
        let before = layers(steps.drop_last());
        match steps.last() {
            Step::Reshape { .. } => before,
            Step::Layer { .. } => before.push(steps.last()),
        }
    }
}

/// Whether a step is the layer of an operator: the kernel of the operator, at
/// its position, from its input shape to its output shape.
pub open spec fn is_layer_of(
    step: Step<Seq<usize>>,
    graph: Graph,
    op: FoldedOpView,
    force_conv_2d: bool,
) -> bool {
    &&& step matches Step::Layer { kind, index, input_shape, output_shape }
    &&& plan::route(graph, op, force_conv_2d) == Ok::<LayerKind, Failure<Seq<usize>>>(kind)
    &&& index == op.index
    &&& input_shape == op.input_shape
    &&& output_shape == op.output_shape
}

/// Reshapes add no layer.
proof fn lemma_reshapes_are_no_layers(steps: Seq<Step<Seq<usize>>>, shapes: Seq<Seq<usize>>)
    ensures
        layers(steps + plan::reshapes(shapes)) == layers(steps),
    decreases shapes.len(),
{
    let all = steps + plan::reshapes(shapes);
    if shapes.len() == 0 {
        assert(all =~= steps);
    } else {
        lemma_reshapes_are_no_layers(steps, shapes.drop_last());
        assert(all.drop_last() =~= steps + plan::reshapes(shapes.drop_last()));
        assert(all.last() == plan::reshapes(shapes).last());
    }
}

/// How many of the first operators have a layer once the code ends.
proof fn lemma_layers_so_far(
    graph: Graph,
    ops: Seq<FoldedOpView>,
    input_shape: Seq<usize>,
    force_conv_2d: bool,
    n: nat,
)
    requires
        n <= ops.len(),
    ensures
        ({
            let p = plan::progress(graph, ops, input_shape, force_conv_2d, n);
            let so_far = layers(p.steps);
            let done = so_far.len() as int;
            let before = if done == 0 {
                input_shape
            } else {
                ops[done - 1].output_shape
            };
            &&& done <= n
            &&& p.failure is None ==> done == n && p.current == before
            &&& p.failure is Some ==> done < n
            &&& forall|k: int|
                0 <= k < done ==> is_layer_of(
                    #[trigger] so_far[k],
                    graph,
                    ops[k],
                    force_conv_2d,
                )
            &&& (match p.failure {
                None => true,
                Some(Failure::Conversion { kind, index, error }) => {
                    &&& kind == ops[done].kind && index == ops[done].index
                    &&& conversion::conversion(before, ops[done].input_shape) == Some(
                        Err::<Seq<Seq<usize>>, ConversionError<Seq<usize>>>(error),
                    )
                },
                Some(Failure::Count) => conversion::conversion(
                    before,
                    ops[done].input_shape,
                ) is None,
                Some(failure) => {
                    &&& plan::route(graph, ops[done], force_conv_2d) == Err::<
                        LayerKind,
                        Failure<Seq<usize>>,
                    >(failure)
                    &&& conversion::conversion(before, ops[done].input_shape) matches Some(Ok(_))
                },
            })
        }),
    decreases n,
{
    if n > 0 {
        let m = (n - 1) as nat;
        lemma_layers_so_far(graph, ops, input_shape, force_conv_2d, m);
        let p = plan::progress(graph, ops, input_shape, force_conv_2d, m);
        let q = plan::progress(graph, ops, input_shape, force_conv_2d, n);
        let op = ops[n - 1];
        if p.failure is None {
            law_kernels(graph, op, force_conv_2d);
            if let Some(Ok(shapes)) = conversion::conversion(p.current, op.input_shape) {
                lemma_reshapes_are_no_layers(p.steps, shapes);
                if let Ok(kind) = plan::route(graph, op, force_conv_2d) {
                    assert(q.steps.drop_last() =~= p.steps + plan::reshapes(shapes));
                    assert(layers(q.steps) =~= layers(p.steps).push(q.steps.last()));
                    assert forall|k: int| 0 <= k < n implies is_layer_of(
                        #[trigger] layers(q.steps)[k],
                        graph,
                        ops[k],
                        force_conv_2d,
                    ) by {
                        if k < m {
                            assert(layers(q.steps)[k] == layers(p.steps)[k]);
                        }
                    }
                }
            }
        }
    } else {
        assert(layers(Seq::<Step<Seq<usize>>>::empty()) =~= Seq::empty());
    }
}

/// The layers are those of the operators, one for one, up to the first that
/// cannot be reached or has no kernel, and the ending says why: the data
/// before it, which is the output of the operator before or the model input,
/// cannot be handed to it, or no kernel is known for it. Where every operator
/// has its layer, the ending is that of handing the last data out as the model
/// output.
pub proof fn law_layers_and_ending(
    graph: Graph,
    ops: Seq<FoldedOpView>,
    output_shape: Seq<usize>,
    output: usize,
    input_shape: Seq<usize>,
    force_conv_2d: bool,
)
    ensures
        ({
            let planned = plan::planned_layers(
                graph,
                ops,
                output_shape,
                output,
                input_shape,
                force_conv_2d,
            );
            let kept = layers(planned.steps);
            let done = kept.len() as int;
            let before = if done == 0 {
                input_shape
            } else {
                ops[done - 1].output_shape
            };
            &&& done <= ops.len()
            &&& forall|k: int|
                0 <= k < done ==> is_layer_of(#[trigger] kept[k], graph, ops[k], force_conv_2d)
            &&& done < ops.len() ==> (match planned.ending {
                Ok(_) => false,
                Err(Failure::Conversion { kind, index, error }) => {
                    &&& kind == ops[done].kind && index == ops[done].index
                    &&& conversion::conversion(before, ops[done].input_shape) == Some(
                        Err::<Seq<Seq<usize>>, ConversionError<Seq<usize>>>(error),
                    )
                },
                Err(Failure::Count) => conversion::conversion(
                    before,
                    ops[done].input_shape,
                ) is None,
                Err(failure) => plan::route(graph, ops[done], force_conv_2d) == Err::<
                    LayerKind,
                    Failure<Seq<usize>>,
                >(failure),
            })
            &&& done == ops.len() ==> (match conversion::conversion(before, output_shape) {
                None => planned.ending matches Err(Failure::Count),
                Some(Err(error)) => planned.ending matches Err(Failure::Output { error: cause })
                    && cause == error,
                Some(Ok(_)) => planned.ending == plan::planned_output(graph, output, output_shape),
            })
        }),
{
    lemma_layers_so_far(graph, ops, input_shape, force_conv_2d, ops.len());
    let last = plan::progress(graph, ops, input_shape, force_conv_2d, ops.len());
    if last.failure is None {
        if let Some(Ok(shapes)) = conversion::conversion(last.current, output_shape) {
            lemma_reshapes_are_no_layers(last.steps, shapes);
        }
    }
}

/// The shape of the data before operator `k`: that of the model input, or the
/// output of the operator before.
pub open spec fn data_before(
    ops: Seq<FoldedOpView>,
    input_shape: Seq<usize>,
    k: int,
) -> Seq<usize> {
    if k == 0 {
        input_shape
    } else {
        ops[k - 1].output_shape
    }
}

/// How many reshapes hand data of one shape on under another: none where they
/// are equal, one where the rank changes, two where it does not.
pub open spec fn reshapes_needed(from: Seq<usize>, to: Seq<usize>) -> int {
    if from == to {
        0
    } else if from.len() != to.len() {
        1
    } else {
        2
    }
}

/// The steps so far are the layers and the reshapes that they need.
proof fn lemma_steps_needed(
    graph: Graph,
    ops: Seq<FoldedOpView>,
    input_shape: Seq<usize>,
    force_conv_2d: bool,
    n: nat,
)
    requires
        n <= ops.len(),
        plan::progress(graph, ops, input_shape, force_conv_2d, n).failure is None,
    ensures
        ({
            let p = plan::progress(graph, ops, input_shape, force_conv_2d, n);
            &&& p.current == data_before(ops, input_shape, n as int)
            &&& p.steps.len() == sums::summed(
                |k: int|
                    reshapes_needed(data_before(ops, input_shape, k), ops[k].input_shape) + 1,
                n,
            )
        }),
    decreases n,
{
    if n > 0 {
        lemma_steps_needed(graph, ops, input_shape, force_conv_2d, (n - 1) as nat);
        let before = plan::progress(graph, ops, input_shape, force_conv_2d, (n - 1) as nat);
        conversion::law_conversions_are_short(before.current, ops[n - 1].input_shape);
    }
}

/// Where the output is reached, there is no needless step: the steps are one
/// layer per operator and, before each and before the output, the reshapes
/// that the shapes need.
pub proof fn law_no_needless_steps(
    graph: Graph,
    ops: Seq<FoldedOpView>,
    output_shape: Seq<usize>,
    output: usize,
    input_shape: Seq<usize>,
    force_conv_2d: bool,
)
    requires
        plan::planned_layers(
            graph,
            ops,
            output_shape,
            output,
            input_shape,
            force_conv_2d,
        ).ending is Ok,
    ensures
        plan::planned_layers(
            graph,
            ops,
            output_shape,
            output,
            input_shape,
            force_conv_2d,
        ).steps.len() == sums::summed(
            |k: int| reshapes_needed(data_before(ops, input_shape, k), ops[k].input_shape) + 1,
            ops.len(),
        ) + reshapes_needed(data_before(ops, input_shape, ops.len() as int), output_shape),
{
    lemma_steps_needed(graph, ops, input_shape, force_conv_2d, ops.len());
    let last = plan::progress(graph, ops, input_shape, force_conv_2d, ops.len());
    conversion::law_conversions_are_short(last.current, output_shape);
}

} // verus!
