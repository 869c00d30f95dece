//! What the codes and the tables of a model stand for.
use crate::activation::FusedActivation;
use crate::compiler::schema;
use crate::compiler::schema::{
    BuiltinOperator, ElementType, Graph, Operator, OperatorCode, Tensor, TensorType,
};
use crate::tensor::TensorViewPadding;
use vstd::prelude::*;

verus! {

/// The operator that each code of the file format stands for, and no other
/// code stands for it.
pub proof fn law_operator_codes(code: i32)
    ensures
        ({
            let kind = schema::kind_of_code(code);
            &&& kind is ADD <==> code == 0
            &&& kind is AVERAGE_POOL_2D <==> code == 1
            &&& kind is CONV_2D <==> code == 3
            &&& kind is DEPTHWISE_CONV_2D <==> code == 4
            &&& kind is FULLY_CONNECTED <==> code == 9
            &&& kind is RESHAPE <==> code == 22
            &&& kind is SOFTMAX <==> code == 25
            &&& kind is TRANSPOSE <==> code == 39
            &&& kind is STRIDED_SLICE <==> code == 45
            &&& kind is EXPAND_DIMS <==> code == 70
            &&& kind is SHAPE <==> code == 77
            &&& kind is PACK <==> code == 83
            &&& kind.code_value() == code
            &&& (kind matches BuiltinOperator::OTHER(held) ==> held == code)
        }),
{
}

/// The operators that slide a window, and those that compute on data.
pub proof fn law_kinds_of_operators(kind: BuiltinOperator)
    ensures
        kind.is_conv_like() <==> kind is CONV_2D || kind is DEPTHWISE_CONV_2D
            || kind is AVERAGE_POOL_2D,
        kind.is_real() <==> kind is CONV_2D || kind is DEPTHWISE_CONV_2D || kind is AVERAGE_POOL_2D
            || kind is FULLY_CONNECTED || kind is SOFTMAX || kind is TRANSPOSE,
{
}

/// The element type, padding and activation function that each code of the
/// file format stands for.
pub proof fn law_option_codes(code: i8)
    ensures
        schema::type_of_code(code) is INT8 <==> code == 9,
        schema::type_of_code(code) is UINT8 <==> code == 3,
        schema::type_of_code(code) matches TensorType::OTHER(held) ==> held == code,
        schema::padding_of_code(code) == Some(TensorViewPadding::Same) <==> code == 0,
        schema::padding_of_code(code) == Some(TensorViewPadding::Valid) <==> code == 1,
        schema::activation_of_code(code) == Some(FusedActivation::Linear) <==> code == 0,
        schema::activation_of_code(code) == Some(FusedActivation::Relu) <==> code == 1,
        schema::activation_of_code(code) == Some(FusedActivation::Relu6) <==> code == 3,
{
}

/// `INT8` tensors hold signed elements, `UINT8` tensors unsigned ones, and no
/// other tensor is quantized.
pub proof fn law_elements_of_types(type_: TensorType)
    ensures
        type_.element() == Some(ElementType::I8) <==> type_ is INT8,
        type_.element() == Some(ElementType::U8) <==> type_ is UINT8,
{
}

/// The full code of an operator counts, unless it is zero and the deprecated
/// one is not.
pub proof fn law_full_code_comes_first(code: OperatorCode)
    ensures
        schema::resolved_kind(code).code_value() == (if code.builtin_code == 0 {
            code.deprecated_builtin_code as i32
        } else {
            code.builtin_code
        }),
        schema::resolved_kind(code) == schema::kind_of_code(
            schema::resolved_kind(code).code_value(),
        ),
{
}

/// The entries of a vector are its elements; an absent one has none.
pub proof fn law_entries(vector: Option<Vec<i32>>)
    ensures
        vector matches Some(held) ==> schema::entries(vector) == held@,
        vector is None ==> schema::entries(vector).len() == 0,
{
}

/// The name of a tensor is the one in the file.
pub proof fn law_tensor_names(tensor: Tensor)
    ensures
        tensor.name matches Some(name) ==> schema::name_of(tensor) == name@,
        tensor.name is None ==> schema::name_of(tensor) == "<unnamed>"@,
{
}

/// The shape of a tensor has the dimensions of the file, in order; a tensor
/// without a shape is a scalar.
pub proof fn law_declared_shapes(tensor: Tensor)
    ensures
        tensor.shape matches Some(dims) ==> {
            &&& schema::shape_of(tensor).len() == dims@.len()
            &&& forall|i: int|
                0 <= i < dims@.len() ==> #[trigger] schema::shape_of(tensor)[i]
                    == dims@[i] as usize
        },
        tensor.shape is None ==> schema::shape_of(tensor).len() == 0,
{
}

/// An operator computes on the elements of its first input, if that is in
/// the tensor table.
pub proof fn law_first_input_decides(graph: Graph, operator: Operator)
    ensures
        match schema::first_input_type(graph, operator) {
            Some(type_) => {
                &&& operator.inputs is Some
                &&& operator.inputs->Some_0@.len() > 0
                &&& 0 <= operator.inputs->Some_0@[0] < graph.tensors@.len()
                &&& type_ == graph.tensors@[operator.inputs->Some_0@[0] as int].type_
            },
            None => operator.inputs matches Some(inputs) ==> inputs@.len() == 0 || inputs@[0] < 0
                || inputs@[0] >= graph.tensors@.len(),
        },
{
}

/// An operator computes on signed elements where its first input is `INT8`,
/// on unsigned ones where it is `UINT8`, and any other type is refused.
pub proof fn law_operator_elements(graph: Graph, operator: Operator)
    ensures
        match schema::first_input_type(graph, operator) {
            None => schema::operator_element(graph, operator) is None,
            Some(type_) => match schema::operator_element(graph, operator) {
                Some(Ok(element)) => (type_ is INT8 && element is I8) || (type_ is UINT8 && element
                    is U8),
                Some(Err(found)) => found == type_ && !(type_ is INT8) && !(type_ is UINT8),
                None => false,
            },
        },
{
}

} // verus!
