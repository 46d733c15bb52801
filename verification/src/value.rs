use vstd::prelude::*;

verus! {

/// A WebAssembly value as handed to, or returned from, the invoked function.
///
/// Floating-point values are carried by their IEEE 754 bit patterns. A
/// non-null function reference, and any other value (a vector), is carried by
/// its textual rendering, which is all the trace records of it.
#[derive(Debug, Clone, PartialEq)]
pub enum WasmValue {
    I32(i32),
    I64(i64),
    F32(u32),
    F64(u64),
    /// A function reference: `None` when null, else its rendering.
    FuncRef(Option<String>),
    /// An extern reference.
    ExternRef,
    /// Any other value, by its rendering.
    Other(String),
}

/// The mathematical model of a [`WasmValue`].
pub enum WasmValueModel {
    I32(i32),
    I64(i64),
    F32(u32),
    F64(u64),
    FuncRef(Option<Seq<char>>),
    ExternRef,
    Other(Seq<char>),
}

impl DeepView for WasmValue {
    type V = WasmValueModel;

    open spec fn deep_view(&self) -> WasmValueModel {
        match self {
            WasmValue::I32(i) => WasmValueModel::I32(*i),
            WasmValue::I64(i) => WasmValueModel::I64(*i),
            WasmValue::F32(b) => WasmValueModel::F32(*b),
            WasmValue::F64(b) => WasmValueModel::F64(*b),
            WasmValue::FuncRef(None) => WasmValueModel::FuncRef(None),
            WasmValue::FuncRef(Some(s)) => WasmValueModel::FuncRef(Some(s@)),
            WasmValue::ExternRef => WasmValueModel::ExternRef,
            WasmValue::Other(s) => WasmValueModel::Other(s@),
        }
    }
}

/// The categories of trace types the recorder registers.
#[derive(Debug, Clone, Copy, PartialEq, Eq, Structural)]
pub enum TypeKind {
    Int,
    Float,
    Raw,
}

/// The trace type of a recorded wasm value.
#[derive(Debug, Clone, Copy, PartialEq, Eq, Structural)]
pub enum ValueType {
    I32,
    I64,
    F32,
    F64,
    WasmRef,
}

/// The kind under which a trace type is registered.
pub open spec fn type_kind(ty: ValueType) -> TypeKind {
    match ty {
        ValueType::I32 | ValueType::I64 => TypeKind::Int,
        ValueType::F32 | ValueType::F64 => TypeKind::Float,
        ValueType::WasmRef => TypeKind::Raw,
    }
}

/// The language-level name under which a trace type is registered.
pub open spec fn lang_type(ty: ValueType) -> Seq<char> {
    match ty {
        ValueType::I32 => "i32"@,
        ValueType::I64 => "i64"@,
        ValueType::F32 => "f32"@,
        ValueType::F64 => "f64"@,
        ValueType::WasmRef => "wasm-ref"@,
    }
}

impl ValueType {
    /// The kind under which this type is registered.
    pub fn kind(self) -> (kind: TypeKind)
        ensures
            kind == type_kind(self),
    {
        match self {
            ValueType::I32 | ValueType::I64 => TypeKind::Int,
            ValueType::F32 | ValueType::F64 => TypeKind::Float,
            ValueType::WasmRef => TypeKind::Raw,
        }
    }

    /// The language-level name of this type: `i32`, `i64`, `f32`, `f64` or
    /// `wasm-ref`.
    pub fn lang_type(self) -> (name: &'static str)
        ensures
            name@ == lang_type(self),
    {
        match self {
            ValueType::I32 => "i32",
            ValueType::I64 => "i64",
            ValueType::F32 => "f32",
            ValueType::F64 => "f64",
            ValueType::WasmRef => "wasm-ref",
        }
    }
}

/// A value as it is written into the trace.
///
/// `Float32` and `Float64` carry the bit pattern of the wasm float; the trace
/// stores it widened to a 64-bit float. `NoneValue` is the placeholder that
/// stands for "no value".
#[derive(Debug, Clone, PartialEq)]
pub enum TraceValue {
    Int(i64),
    Float32(u32),
    Float64(u64),
    Raw(String),
    NoneValue,
}

/// The mathematical model of a [`TraceValue`].
pub enum TraceValueModel {
    Int(i64),
    Float32(u32),
    Float64(u64),
    Raw(Seq<char>),
    NoneValue,
}

impl DeepView for TraceValue {
    type V = TraceValueModel;

    open spec fn deep_view(&self) -> TraceValueModel {
        match self {
            TraceValue::Int(i) => TraceValueModel::Int(*i),
            TraceValue::Float32(b) => TraceValueModel::Float32(*b),
            TraceValue::Float64(b) => TraceValueModel::Float64(*b),
            TraceValue::Raw(s) => TraceValueModel::Raw(s@),
            TraceValue::NoneValue => TraceValueModel::NoneValue,
        }
    }
}

/// The trace type of a wasm value.
pub open spec fn value_type(v: WasmValueModel) -> ValueType {
    match v {
        WasmValueModel::I32(_) => ValueType::I32,
        WasmValueModel::I64(_) => ValueType::I64,
        WasmValueModel::F32(_) => ValueType::F32,
        WasmValueModel::F64(_) => ValueType::F64,
        WasmValueModel::FuncRef(_) | WasmValueModel::ExternRef | WasmValueModel::Other(
            _,
        ) => ValueType::WasmRef,
    }
}

/// The trace value of a wasm value: integers are sign-extended to 64 bits,
/// floats keep their bits; references and anything else are recorded raw, an
/// extern reference as `<externref>`, a null function reference as
/// `<funcref>`, any other value by its rendering.
pub open spec fn trace_value(v: WasmValueModel) -> TraceValueModel {
    match v {
        WasmValueModel::I32(i) => TraceValueModel::Int(i as i64),
        WasmValueModel::I64(i) => TraceValueModel::Int(i),
        WasmValueModel::F32(b) => TraceValueModel::Float32(b),
        WasmValueModel::F64(b) => TraceValueModel::Float64(b),
        WasmValueModel::FuncRef(None) => TraceValueModel::Raw("<funcref>"@),
        WasmValueModel::FuncRef(Some(s)) => TraceValueModel::Raw(s),
        WasmValueModel::ExternRef => TraceValueModel::Raw("<externref>"@),
        WasmValueModel::Other(s) => TraceValueModel::Raw(s),
    }
}

/// The kind of type a trace value must be registered under, if it has one.
pub open spec fn value_kind(v: TraceValueModel) -> Option<TypeKind> {
    match v {
        TraceValueModel::Int(_) => Some(TypeKind::Int),
        TraceValueModel::Float32(_) | TraceValueModel::Float64(_) => Some(TypeKind::Float),
        TraceValueModel::Raw(_) => Some(TypeKind::Raw),
        TraceValueModel::NoneValue => None,
    }
}

/// Converts a wasm value into the trace value and trace type that record it.
pub fn wasm_value_record(val: &WasmValue) -> (record: (TraceValue, ValueType))
    ensures
        record.0.deep_view() == trace_value(val.deep_view()),
        record.1 == value_type(val.deep_view()),
{
    match val {
        WasmValue::I32(i) => (TraceValue::Int(*i as i64), ValueType::I32),
        WasmValue::I64(i) => (TraceValue::Int(*i), ValueType::I64),
        WasmValue::F32(bits) => (TraceValue::Float32(*bits), ValueType::F32),
        WasmValue::F64(bits) => (TraceValue::Float64(*bits), ValueType::F64),
        WasmValue::FuncRef(None) => (TraceValue::Raw("<funcref>".to_string()), ValueType::WasmRef),
        WasmValue::FuncRef(Some(text)) => (TraceValue::Raw(text.clone()), ValueType::WasmRef),
        WasmValue::ExternRef => (TraceValue::Raw("<externref>".to_string()), ValueType::WasmRef),
        WasmValue::Other(text) => (TraceValue::Raw(text.clone()), ValueType::WasmRef),
    }
}

/// A recorded value is always registered under the kind of its own type.
pub proof fn lemma_record_kind_matches_type(v: WasmValueModel)
    ensures
        value_kind(trace_value(v)) == Some(type_kind(value_type(v))),
{
}

} // verus!
