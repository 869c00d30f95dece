//! What holds of every model that code is generated for.
use crate::compiler::conversion::ConversionError;
use crate::compiler::fold;
use crate::compiler::fold::FoldStateView;
use crate::compiler::fold_laws;
use crate::compiler::model;
use crate::compiler::model::{ModelError, ZeroPointsView};
use crate::compiler::plan;
use crate::compiler::plan::Failure;
use crate::compiler::plan_laws;
use crate::compiler::schema::Graph;
use vstd::prelude::*;

verus! {

/// The table of a pass keeps one entry per tensor.
proof fn lemma_table_keeps_its_length(graph: Graph, start: FoldStateView, n: nat)
    requires
        fold::state_after(graph, start, n) matches Some(Ok(_)),
    ensures
        fold::state_after(graph, start, n)->Some_0->Ok_0.values.len() == start.values.len(),
    decreases n,
{
    if n > 0 {
        lemma_table_keeps_its_length(graph, start, (n - 1) as nat);
    }
}

/// The layers of a folded graph never end at an operator without a kernel.
proof fn lemma_no_operator_without_kernel(
    graph: Graph,
    input: usize,
    output: usize,
    raw_input_shape: Seq<usize>,
    input_shape: Seq<usize>,
    force_conv_2d: bool,
    n: nat,
)
    requires
        fold::folded(graph, input, output, raw_input_shape) matches Some(Ok(_)),
        n <= fold::folded(graph, input, output, raw_input_shape)->Some_0->Ok_0.ops.len(),
    ensures
        ({
            let ops = fold::folded(graph, input, output, raw_input_shape)->Some_0->Ok_0.ops;
            match plan::progress(graph, ops, input_shape, force_conv_2d, n).failure {
                None => true,
                Some(Failure::Conversion { .. }) => true,
                Some(Failure::Count) => true,
                Some(Failure::Filters { .. }) => true,
                _ => false,
            }
        }),
    decreases n,
{
    if n > 0 {
        lemma_no_operator_without_kernel(
            graph,
            input,
            output,
            raw_input_shape,
            input_shape,
            force_conv_2d,
            (n - 1) as nat,
        );
        plan_laws::law_folded_operators_have_kernels(
            graph,
            input,
            output,
            raw_input_shape,
            force_conv_2d,
            n - 1,
        );
    }
}

/// The code of a model lines up from its input to its output: every step
/// takes the shape that the steps before it leave; where the output is
/// reached, the data has its shape and the layers are the real operators of
/// the graph in execution order. The layers end early for no other reason
/// than a reshape that is not supported, an entry that is missing, an
/// element count that overflows, or the type of the output.
pub proof fn law_model_lines_up(graph: Graph, input: usize, output: usize, force_conv_2d: bool)
    requires
        model::compiled(graph, input, output, force_conv_2d) matches Some(Ok(_)),
    ensures
        ({
            let compiled = model::compiled(graph, input, output, force_conv_2d)->Some_0->Ok_0;
            let layers = compiled.layers;
            let folded = fold::folded(
                graph,
                input,
                output,
                compiled.input.raw_shape,
            )->Some_0->Ok_0;
            let reached = plan_laws::shape_after(
                compiled.input.shape,
                layers.steps,
                layers.steps.len(),
            );
            &&& fold_laws::kept_ops(graph, folded.ops, graph.operators@.len() as int)
            &&& reached is Some
            &&& match layers.ending {
                Ok(end) => {
                    &&& reached == Some(end.shape)
                    &&& plan_laws::layer_indexes(layers.steps) == Seq::new(
                        folded.ops.len(),
                        |k: int| folded.ops[k].index,
                    )
                },
                Err(Failure::Operator { .. }) => false,
                Err(Failure::OutputTensor) => false,
                Err(Failure::OutputRank { .. }) => false,
                Err(_) => true,
            }
        }),
{
    let compiled = model::compiled(graph, input, output, force_conv_2d)->Some_0->Ok_0;
    let raw = compiled.input.raw_shape;
    let folded = fold::folded(graph, input, output, raw)->Some_0->Ok_0;
    fold_laws::law_real_operators_remain(graph, input, output, raw);
    lemma_table_keeps_its_length(
        graph,
        fold::initial_state(graph.tensors@.len(), input, raw),
        graph.operators@.len(),
    );
    lemma_no_operator_without_kernel(
        graph,
        input,
        output,
        raw,
        compiled.input.shape,
        force_conv_2d,
        folded.ops.len(),
    );
    plan_laws::law_steps_line_up(
        graph,
        folded.ops,
        folded.output_shape,
        output,
        compiled.input.shape,
        force_conv_2d,
    );
    if compiled.layers.ending is Ok {
        plan_laws::law_layers_are_the_operators(
            graph,
            folded.ops,
            folded.output_shape,
            output,
            compiled.input.shape,
            force_conv_2d,
        );
    }
}

/// No layer of a model is refused because its element count differs from
/// that of the data that reaches it.
pub proof fn law_model_agrees_on_element_counts(
    graph: Graph,
    input: usize,
    output: usize,
    force_conv_2d: bool,
)
    requires
        model::compiled(graph, input, output, force_conv_2d) matches Some(Ok(_)),
        fold_laws::counts_within_i64(graph, input),
    ensures
        !(model::compiled(
            graph,
            input,
            output,
            force_conv_2d,
        )->Some_0->Ok_0.layers.ending matches Err(
            Failure::Conversion { error: ConversionError::CountMismatch { .. }, .. },
        )),
{
    let compiled = model::compiled(graph, input, output, force_conv_2d)->Some_0->Ok_0;
    plan_laws::law_layers_agree_on_element_counts(
        graph,
        input,
        output,
        compiled.input.raw_shape,
        compiled.input.element,
        force_conv_2d,
    );
}

/// A model is compiled into the input that its tensor declares, with its zero
/// points in its element type, and into the layers of its folded graph. It is
/// refused where the input or the graph is; nothing is said only where the
/// input is missing or not quantized, or where folding says nothing.
pub proof fn law_models(graph: Graph, input: usize, output: usize, force_conv_2d: bool)
    ensures
        ({
            let planned = plan::planned_input(graph, input);
            let declared = graph.tensors@[input as int].zero_point;
            let folded = fold::folded(graph, input, output, planned->Some_0->Ok_0.raw_shape);
            match model::compiled(graph, input, output, force_conv_2d) {
                Some(Ok(compiled)) => {
                    &&& planned matches Some(Ok(found))
                    &&& compiled.input == found
                    &&& declared matches Some(zero_points)
                    &&& (match compiled.zero_points {
                        ZeroPointsView::I8(values) => {
                            &&& found.element is I8
                            &&& values.len() == zero_points@.len()
                            &&& forall|i: int|
                                0 <= i < values.len() ==> #[trigger] values[i]
                                    == zero_points@[i] as i8
                        },
                        ZeroPointsView::U8(values) => {
                            &&& found.element is U8
                            &&& values.len() == zero_points@.len()
                            &&& forall|i: int|
                                0 <= i < values.len() ==> #[trigger] values[i]
                                    == zero_points@[i] as u8
                        },
                    })
                    &&& folded matches Some(Ok(graph_folded))
                    &&& compiled.layers == plan::planned_layers(
                        graph,
                        graph_folded.ops,
                        graph_folded.output_shape,
                        output,
                        found.shape,
                        force_conv_2d,
                    )
                },
                Some(Err(ModelError::Input(error))) => planned == Some(
                    Err::<plan::InputPlan<Seq<usize>>, plan::InputError<Seq<usize>>>(error),
                ),
                Some(Err(ModelError::Fold(error))) => {
                    &&& planned matches Some(Ok(_))
                    &&& declared is Some
                    &&& folded == Some(Err::<fold::FoldedGraphView, fold::FoldErrorView>(error))
                },
                None => planned is None || ((planned matches Some(Ok(_))) && (declared is None
                    || folded is None)),
            }
        }),
{
}

/// The elements of a model: those of its input and of its output are the ones
/// that the file declares for their tensors, signed for `INT8` and unsigned
/// for `UINT8`.
pub proof fn law_model_elements_are_declared(
    graph: Graph,
    input: usize,
    output: usize,
    force_conv_2d: bool,
)
    requires
        model::compiled(graph, input, output, force_conv_2d) matches Some(Ok(_)),
    ensures
        ({
            let compiled = model::compiled(graph, input, output, force_conv_2d)->Some_0->Ok_0;
            let from = graph.tensors@[input as int].type_;
            let to = graph.tensors@[output as int].type_;
            &&& (from is INT8 && compiled.input.element is I8) || (from is UINT8
                && compiled.input.element is U8)
            &&& compiled.layers.ending matches Ok(end) ==> (to is INT8 && end.element is I8) || (to
                is UINT8 && end.element is U8)
        }),
{
    plan_laws::law_input_is_declared(graph, input);
    let compiled = model::compiled(graph, input, output, force_conv_2d)->Some_0->Ok_0;
    let folded = fold::folded(graph, input, output, compiled.input.raw_shape)->Some_0->Ok_0;
    plan_laws::law_planned_output_is_declared(
        graph,
        folded.ops,
        folded.output_shape,
        output,
        compiled.input.shape,
        force_conv_2d,
    );
}

} // verus!
