//! The parts of a TensorFlow Lite model that the compiler reads, as plain
//! values.
use crate::activation::FusedActivation;
use crate::tensor::TensorViewPadding;
use vstd::prelude::*;

verus! {

/// Kind of a builtin operator. Codes without a name of their own are
/// `OTHER`.
#[allow(non_camel_case_types)]
#[derive(Debug, Clone, Copy, PartialEq, Eq, Structural)]
pub enum BuiltinOperator {
    ADD,
    AVERAGE_POOL_2D,
    CONV_2D,
    DEPTHWISE_CONV_2D,
    FULLY_CONNECTED,
    RESHAPE,
    SOFTMAX,
    TRANSPOSE,
    STRIDED_SLICE,
    EXPAND_DIMS,
    SHAPE,
    PACK,
    OTHER(i32),
}

/// The kind that a builtin code of the file format stands for.
pub open spec fn kind_of_code(code: i32) -> BuiltinOperator {
    if code == 0 {
        BuiltinOperator::ADD
    } else if code == 1 {
        BuiltinOperator::AVERAGE_POOL_2D
    } else if code == 3 {
        BuiltinOperator::CONV_2D
    } else if code == 4 {
        BuiltinOperator::DEPTHWISE_CONV_2D
    } else if code == 9 {
        BuiltinOperator::FULLY_CONNECTED
    } else if code == 22 {
        BuiltinOperator::RESHAPE
    } else if code == 25 {
        BuiltinOperator::SOFTMAX
    } else if code == 39 {
        BuiltinOperator::TRANSPOSE
    } else if code == 45 {
        BuiltinOperator::STRIDED_SLICE
    } else if code == 70 {
        BuiltinOperator::EXPAND_DIMS
    } else if code == 77 {
        BuiltinOperator::SHAPE
    } else if code == 83 {
        BuiltinOperator::PACK
    } else {
        BuiltinOperator::OTHER(code)
    }
}

impl BuiltinOperator {
    /// The builtin code of the kind.
    pub open spec fn code_value(self) -> i32 {
        match self {
            BuiltinOperator::ADD => 0,
            BuiltinOperator::AVERAGE_POOL_2D => 1,
            BuiltinOperator::CONV_2D => 3,
            BuiltinOperator::DEPTHWISE_CONV_2D => 4,
            BuiltinOperator::FULLY_CONNECTED => 9,
            BuiltinOperator::RESHAPE => 22,
            BuiltinOperator::SOFTMAX => 25,
            BuiltinOperator::TRANSPOSE => 39,
            BuiltinOperator::STRIDED_SLICE => 45,
            BuiltinOperator::EXPAND_DIMS => 70,
            BuiltinOperator::SHAPE => 77,
            BuiltinOperator::PACK => 83,
            BuiltinOperator::OTHER(code) => code,
        }
    }

    /// The kind that a builtin code stands for.
    pub fn from_code(code: i32) -> (kind: Self)
        ensures
            kind == kind_of_code(code),
            kind.code_value() == code,
    {
        match code {
            0 => BuiltinOperator::ADD,
            1 => BuiltinOperator::AVERAGE_POOL_2D,
            3 => BuiltinOperator::CONV_2D,
            4 => BuiltinOperator::DEPTHWISE_CONV_2D,
            9 => BuiltinOperator::FULLY_CONNECTED,
            22 => BuiltinOperator::RESHAPE,
            25 => BuiltinOperator::SOFTMAX,
            39 => BuiltinOperator::TRANSPOSE,
            45 => BuiltinOperator::STRIDED_SLICE,
            70 => BuiltinOperator::EXPAND_DIMS,
            77 => BuiltinOperator::SHAPE,
            83 => BuiltinOperator::PACK,
            other => BuiltinOperator::OTHER(other),
        }
    }

    /// The builtin code of the kind.
    pub fn code(self) -> (code: i32)
        ensures
            code == self.code_value(),
    {
        match self {
            BuiltinOperator::ADD => 0,
            BuiltinOperator::AVERAGE_POOL_2D => 1,
            BuiltinOperator::CONV_2D => 3,
            BuiltinOperator::DEPTHWISE_CONV_2D => 4,
            BuiltinOperator::FULLY_CONNECTED => 9,
            BuiltinOperator::RESHAPE => 22,
            BuiltinOperator::SOFTMAX => 25,
            BuiltinOperator::TRANSPOSE => 39,
            BuiltinOperator::STRIDED_SLICE => 45,
            BuiltinOperator::EXPAND_DIMS => 70,
            BuiltinOperator::SHAPE => 77,
            BuiltinOperator::PACK => 83,
            BuiltinOperator::OTHER(code) => code,
        }
    }

    /// The operator slides a window over its input.
    pub open spec fn is_conv_like(self) -> bool {
        self is CONV_2D || self is DEPTHWISE_CONV_2D || self is AVERAGE_POOL_2D
    }

    /// The operator computes on data, so that code is generated for it.
    pub open spec fn is_real(self) -> bool {
        self.is_conv_like() || self is FULLY_CONNECTED || self is SOFTMAX || self is TRANSPOSE
    }
}

/// Element type of a tensor. Types that the engine has no use for are
/// `OTHER`, with their code.
#[derive(Debug, Clone, Copy, PartialEq, Eq, Structural)]
pub enum TensorType {
    INT8,
    UINT8,
    OTHER(i8),
}

/// Element type that the engine computes on.
#[derive(Debug, Clone, Copy, PartialEq, Eq, Structural)]
pub enum ElementType {
    I8,
    U8,
}

/// The element type that a code of the file format stands for.
pub open spec fn type_of_code(code: i8) -> TensorType {
    if code == 9 {
        TensorType::INT8
    } else if code == 3 {
        TensorType::UINT8
    } else {
        TensorType::OTHER(code)
    }
}

/// The padding that a code of the file format stands for.
pub open spec fn padding_of_code(code: i8) -> Option<TensorViewPadding> {
    if code == 0 {
        Some(TensorViewPadding::Same)
    } else if code == 1 {
        Some(TensorViewPadding::Valid)
    } else {
        None
    }
}

/// The padding that a code of the file format stands for; `None` for a code
/// that the engine does not know.
pub fn padding_from_code(code: i8) -> (padding: Option<TensorViewPadding>)
    ensures
        padding == padding_of_code(code),
{
    match code {
        0 => Some(TensorViewPadding::Same),
        1 => Some(TensorViewPadding::Valid),
        _ => None,
    }
}

/// The activation function that a code of the file format stands for.
pub open spec fn activation_of_code(code: i8) -> Option<FusedActivation> {
    if code == 0 {
        Some(FusedActivation::Linear)
    } else if code == 1 {
        Some(FusedActivation::Relu)
    } else if code == 3 {
        Some(FusedActivation::Relu6)
    } else {
        None
    }
}

/// The activation function that a code of the file format stands for; `None`
/// for one that the engine does not know.
pub fn activation_from_code(code: i8) -> (activation: Option<FusedActivation>)
    ensures
        activation == activation_of_code(code),
{
    match code {
        0 => Some(FusedActivation::Linear),
        1 => Some(FusedActivation::Relu),
        3 => Some(FusedActivation::Relu6),
        _ => None,
    }
}

impl TensorType {
    /// The element type that a code of the file format stands for.
    pub fn from_code(code: i8) -> (type_: Self)
        ensures
            type_ == type_of_code(code),
    {
        match code {
            9 => TensorType::INT8,
            3 => TensorType::UINT8,
            other => TensorType::OTHER(other),
        }
    }

    /// The element type of a quantized tensor.
    pub open spec fn element(self) -> Option<ElementType> {
        match self {
            TensorType::INT8 => Some(ElementType::I8),
            TensorType::UINT8 => Some(ElementType::U8),
            TensorType::OTHER(_) => None,
        }
    }

    /// The element type of a quantized tensor, or the unsupported type.
    pub fn quantized(self) -> (r: Result<ElementType, TensorType>)
        ensures
            match self.element() {
                Some(element) => r == Ok::<ElementType, TensorType>(element),
                None => r == Err::<ElementType, TensorType>(self),
            },
    {
        match self {
            TensorType::INT8 => Ok(ElementType::I8),
            TensorType::UINT8 => Ok(ElementType::U8),
            TensorType::OTHER(_) => Err(self),
        }
    }
}

/// An entry of the operator code table. Codes below 128 may stand in the
/// deprecated byte field alone.
#[derive(Debug, Clone, Copy, PartialEq, Eq)]
pub struct OperatorCode {
    pub deprecated_builtin_code: i8,
    pub builtin_code: i32,
}

/// Options of a strided slice.
#[derive(Debug, Clone, Copy, PartialEq, Eq)]
pub struct StridedSliceOptions {
    pub begin_mask: i32,
    pub end_mask: i32,
    pub ellipsis_mask: i32,
    pub new_axis_mask: i32,
    pub shrink_axis_mask: i32,
}

/// Options of a convolution.
#[derive(Debug, Clone, Copy, PartialEq, Eq)]
pub struct Conv2DOptions {
    pub padding: TensorViewPadding,
    pub stride_w: i32,
    pub stride_h: i32,
    pub fused_activation: FusedActivation,
}

/// Options of an operator. Those that the compiler does not read are `Other`.
#[derive(Debug, PartialEq, Eq)]
pub enum BuiltinOptions {
    Reshape { new_shape: Option<Vec<i32>> },
    StridedSlice(StridedSliceOptions),
    Pack { axis: i32 },
    Conv2D(Conv2DOptions),
    FullyConnected { fused_activation: FusedActivation },
    Other,
}

/// An operator of the graph. Tensors are named by their index; a negative
/// index marks an optional input that is left out.
#[derive(Debug, PartialEq, Eq)]
pub struct Operator {
    pub opcode_index: u32,
    pub inputs: Option<Vec<i32>>,
    pub outputs: Option<Vec<i32>>,
    pub options: BuiltinOptions,
}

/// The entries of an optional vector; none where it is absent.
pub open spec fn entries(vector: Option<Vec<i32>>) -> Seq<i32> {
    match vector {
        Some(vector) => vector@,
        None => Seq::empty(),
    }
}

/// A tensor of the graph.
#[derive(Debug, PartialEq, Eq)]
pub struct Tensor {
    pub name: Option<String>,
    pub shape: Option<Vec<i32>>,
    pub type_: TensorType,
    pub buffer: u32,
    /// The zero points; absent where the tensor is not quantized.
    pub zero_point: Option<Vec<i64>>,
}

/// A buffer of the model: the bytes of a constant tensor.
#[derive(Debug, PartialEq, Eq)]
pub struct Buffer {
    pub data: Option<Vec<u8>>,
}

/// A subgraph, with the model-wide tables that its operators refer to.
#[derive(Debug, PartialEq, Eq)]
pub struct Graph {
    pub operators: Vec<Operator>,
    pub operator_codes: Vec<OperatorCode>,
    pub tensors: Vec<Tensor>,
    pub buffers: Vec<Buffer>,
}

/// The entries of an optional vector; none where it is absent.
pub fn entries_of(vector: &Option<Vec<i32>>) -> (found: Vec<i32>)
    ensures
        found@ == entries(*vector),
{
    match vector {
        Some(vector) => vstd::slice::slice_to_vec(vector.as_slice()),
        None => Vec::new(),
    }
}

/// The kind of an operator, by its entry in the code table: the deprecated
/// byte field stands in where the full code reads as `ADD`.
pub open spec fn resolved_kind(code: OperatorCode) -> BuiltinOperator {
    if kind_of_code(code.builtin_code) is ADD && code.deprecated_builtin_code != 0 {
        kind_of_code(code.deprecated_builtin_code as i32)
    } else {
        kind_of_code(code.builtin_code)
    }
}

/// Resolves the builtin operator kind of an operator (codes < 128 live in the
/// deprecated byte field; newer ones only in `builtin_code`).
pub fn builtin_kind(codes: &[OperatorCode], operator: &Operator) -> (kind: BuiltinOperator)
    requires
        operator.opcode_index < codes@.len(),
    ensures
        kind == resolved_kind(codes@[operator.opcode_index as int]),
{
    let code: &OperatorCode = &codes[operator.opcode_index as usize];
    let builtin: BuiltinOperator = BuiltinOperator::from_code(code.builtin_code);
    if builtin == BuiltinOperator::ADD && code.deprecated_builtin_code != 0 {
        BuiltinOperator::from_code(code.deprecated_builtin_code as i32)
    } else {
        builtin
    }
}

/// The name of a tensor.
pub open spec fn name_of(tensor: Tensor) -> Seq<char> {
    match tensor.name {
        Some(name) => name@,
        None => "<unnamed>"@,
    }
}

/// The name of a tensor, or a stand-in where the file gives none.
pub fn tensor_name(tensor: &Tensor) -> (name: String)
    ensures
        name@ == name_of(*tensor),
{
    match &tensor.name {
        Some(name) => name.clone(),
        None => "<unnamed>".to_owned(),
    }
}

/// The dimensions as sizes: a negative dimension wraps around.
pub open spec fn sizes(dims: Seq<i32>) -> Seq<usize> {
    Seq::new(dims.len(), |i: int| dims[i] as usize)
}

/// The declared shape of a tensor.
pub open spec fn shape_of(tensor: Tensor) -> Seq<usize> {
    sizes(entries(tensor.shape))
}

/// The declared shape of a tensor; a tensor without one is a scalar.
pub fn tensor_shape(tensor: &Tensor) -> (shape: Vec<usize>)
    ensures
        shape@ == shape_of(*tensor),
{
    let mut shape: Vec<usize> = Vec::new();
    match &tensor.shape {
        Some(dims) => {
            let mut i: usize = 0;
            while i < dims.len()
                invariant
                    i <= dims.len(),
                    shape@ =~= sizes(dims@.take(i as int)),
                decreases dims.len() - i,
            {
                shape.push(dims[i] as usize);
                i = i + 1;
            }
            assert(dims@.take(dims@.len() as int) =~= dims@);
        },
        None => {},
    }
    shape
}

/// The type of the first input of an operator; `None` where there is none.
pub open spec fn first_input_type(graph: Graph, operator: Operator) -> Option<TensorType> {
    let inputs = entries(operator.inputs);
    if inputs.len() == 0 || inputs[0] < 0 || inputs[0] >= graph.tensors@.len() {
        None
    } else {
        Some(graph.tensors@[inputs[0] as int].type_)
    }
}

/// The element type that an operator computes on, or the unsupported type of
/// its first input; `None` where there is no first input.
pub open spec fn operator_element(graph: Graph, operator: Operator) -> Option<
    Result<ElementType, TensorType>,
> {
    match first_input_type(graph, operator) {
        None => None,
        Some(type_) => match type_.element() {
            Some(element) => Some(Ok(element)),
            None => Some(Err(type_)),
        },
    }
}

/// The element type that an operator computes on: that of its first input,
/// or the unsupported type. `None` where there is no first input.
pub fn checked_operator_element(graph: &Graph, operator: &Operator) -> (r: Option<
    Result<ElementType, TensorType>,
>)
    ensures
        r == operator_element(*graph, *operator),
{
    let inputs: Vec<i32> = entries_of(&operator.inputs);
    if inputs.len() == 0 || inputs[0] < 0 || inputs[0] as usize >= graph.tensors.len() {
        None
    } else {
        Some(graph.tensors[inputs[0] as usize].type_.quantized())
    }
}

} // verus!
