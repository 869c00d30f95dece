//! A model as a whole: its input, its layers and its output.
use crate::compiler::fold;
use crate::compiler::fold::{checked_fold, FoldedGraph};
use crate::compiler::fold_laws;
use crate::compiler::outcome;
use crate::compiler::plan;
use crate::compiler::plan::{
    checked_plan_input, plan_layers, zero_points_i8, zero_points_u8, InputError, InputPlan,
    LayerPlan, Step,
};
use crate::compiler::schema::{ElementType, Graph};
use vstd::prelude::*;

verus! {

/// The zero points of the model input, in its element type.
#[derive(Debug, PartialEq, Eq)]
pub enum ZeroPoints {
    I8(Vec<i8>),
    U8(Vec<u8>),
}

/// Zero points, as sequences.
pub enum ZeroPointsView {
    I8(Seq<i8>),
    U8(Seq<u8>),
}

impl View for ZeroPoints {
    type V = ZeroPointsView;

    open spec fn view(&self) -> ZeroPointsView {
        match *self {
            ZeroPoints::I8(values) => ZeroPointsView::I8(values@),
            ZeroPoints::U8(values) => ZeroPointsView::U8(values@),
        }
    }
}

/// What code is generated for a model.
#[derive(Debug, PartialEq, Eq)]
pub struct ModelPlan {
    pub input: InputPlan<Vec<usize>>,
    pub zero_points: ZeroPoints,
    pub layers: LayerPlan<Vec<Step<Vec<usize>>>, Vec<usize>>,
}

/// What code is generated for a model, by the views of its parts.
pub struct ModelPlanView {
    pub input: InputPlan<Seq<usize>>,
    pub zero_points: ZeroPointsView,
    pub layers: LayerPlan<Seq<Step<Seq<usize>>>, Seq<usize>>,
}

impl View for ModelPlan {
    type V = ModelPlanView;

    open spec fn view(&self) -> ModelPlanView {
        ModelPlanView {
            input: self.input@,
            zero_points: self.zero_points@,
            layers: self.layers@,
        }
    }
}

/// Why no code is generated for a model.
#[derive(Debug, PartialEq, Eq)]
pub enum ModelError<S, D> {
    /// The model input is not supported.
    Input(InputError<S>),
    /// The graph cannot be folded.
    Fold(fold::FoldError<S, D>),
}

/// An error, with its shapes as sequences.
pub type ModelErrorView = ModelError<Seq<usize>, Seq<i64>>;

impl View for ModelError<Vec<usize>, Vec<i64>> {
    type V = ModelErrorView;

    open spec fn view(&self) -> ModelErrorView {
        match *self {
            ModelError::Input(error) => ModelError::Input(error@),
            ModelError::Fold(error) => ModelError::Fold(error@),
        }
    }
}

/// The zero points in the element type of the tensor.
pub open spec fn typed_zero_points(element: ElementType, zero_points: Seq<i64>) -> ZeroPointsView {
    match element {
        ElementType::I8 => ZeroPointsView::I8(
            Seq::new(zero_points.len(), |i: int| zero_points[i] as i8),
        ),
        ElementType::U8 => ZeroPointsView::U8(
            Seq::new(zero_points.len(), |i: int| zero_points[i] as u8),
        ),
    }
}

/// What code is generated for a model with the given input and output
/// tensors, or why none is; `None` where the model refers to an entry that
/// it does not have, or an element count overflows.
pub open spec fn compiled(graph: Graph, input: usize, output: usize, force_conv_2d: bool) -> Option<
    Result<ModelPlanView, ModelErrorView>,
> {
    match plan::planned_input(graph, input) {
        None => None,
        Some(Err(error)) => Some(Err(ModelError::Input(error))),
        Some(Ok(planned)) => match graph.tensors@[input as int].zero_point {
            None => None,
            Some(zero_points) => match fold::folded(graph, input, output, planned.raw_shape) {
                None => None,
                Some(Err(error)) => Some(Err(ModelError::Fold(error))),
                Some(Ok(folded)) => Some(
                    Ok(
                        ModelPlanView {
                            input: planned,
                            zero_points: typed_zero_points(planned.element, zero_points@),
                            layers: plan::planned_layers(
                                graph,
                                folded.ops,
                                folded.output_shape,
                                output,
                                planned.shape,
                                force_conv_2d,
                            ),
                        },
                    ),
                ),
            },
        },
    }
}

/// Plans the code of a model: its input, the layers that remain once the
/// shape operators are folded away, and its output. `None` where the model
/// refers to an entry that it does not have, or an element count overflows.
pub fn checked_model(
    graph: &Graph,
    input_tensor_index: usize,
    output_tensor_index: usize,
    force_conv_2d: bool,
) -> (r: Option<Result<ModelPlan, ModelError<Vec<usize>, Vec<i64>>>>)
    ensures
        outcome::view_of(r) == compiled(
            *graph,
            input_tensor_index,
            output_tensor_index,
            force_conv_2d,
        ),
{
    let input: InputPlan<Vec<usize>> = match checked_plan_input(graph, input_tensor_index) {
        None => {
            return None;
        },
        Some(Err(error)) => {
            return Some(Err(ModelError::Input(error)));
        },
        Some(Ok(input)) => input,
    };
    let zero_points: ZeroPoints = match &graph.tensors[input_tensor_index].zero_point {
        None => {
            return None;
        },
        Some(zero_points) => match input.element {
            ElementType::I8 => ZeroPoints::I8(zero_points_i8(zero_points.as_slice())),
            ElementType::U8 => ZeroPoints::U8(zero_points_u8(zero_points.as_slice())),
        },
    };
    let folded: FoldedGraph = match checked_fold(
        graph,
        input_tensor_index,
        output_tensor_index,
        input.raw_shape.as_slice(),
    ) {
        None => {
            return None;
        },
        Some(Err(error)) => {
            return Some(Err(ModelError::Fold(error)));
        },
        Some(Ok(folded)) => folded,
    };
    proof {
        fold_laws::law_real_operators_remain(
            *graph,
            input_tensor_index,
            output_tensor_index,
            input.raw_shape@,
        );
        assert forall|k: int| 0 <= k < folded.ops@.len() implies (#[trigger] folded.ops@[k]).index
            < graph.operators@.len() by {
            assert(folded@.ops[k] == folded.ops@[k]@);
        }
    }
    let layers = plan_layers(
        graph,
        &folded,
        output_tensor_index,
        input.shape.as_slice(),
        force_conv_2d,
    );
    Some(Ok(ModelPlan { input, zero_points, layers }))
}

/// Plans the code of a model: its input, the layers that remain once the
/// shape operators are folded away, and its output.
pub fn model(
    graph: &Graph,
    input_tensor_index: usize,
    output_tensor_index: usize,
    force_conv_2d: bool,
) -> (r: Result<ModelPlan, ModelError<Vec<usize>, Vec<i64>>>)
    requires
        compiled(*graph, input_tensor_index, output_tensor_index, force_conv_2d) is Some,
    ensures
        outcome::view_of(Some(r)) == compiled(
            *graph,
            input_tensor_index,
            output_tensor_index,
            force_conv_2d,
        ),
{
    checked_model(graph, input_tensor_index, output_tensor_index, force_conv_2d).unwrap()
}

} // verus!
