use vstd::prelude::*;

use crate::value::{TraceValue, TraceValueModel, ValueType};

verus! {

/// One call on the trace writer.
///
/// A value in `Arg` or `RegisterReturn` refers to the type whose id the most
/// recent `EnsureTypeId` returned; `RegisterCall` opens a frame for the
/// function whose id the most recent `EnsureFunctionId` returned. File names in
/// the `Begin*` operations are relative to the recorder's output directory.
#[derive(Debug, Clone, PartialEq)]
pub enum WriterOp {
    BeginTraceEvents { file_name: String },
    BeginTraceMetadata { file_name: String },
    BeginTracePaths { file_name: String },
    Start { path: String, line: i64 },
    EnsureFunctionId { name: String, path: String, line: i64 },
    EnsureTypeId { ty: ValueType },
    RegisterRawType { ty: ValueType },
    Arg { name: String, value: TraceValue },
    RegisterCall,
    RegisterReturn { value: TraceValue },
    RegisterErrorEvent { metadata: String, content: String },
    FinishTraceEvents,
    FinishTraceMetadata,
    FinishTracePaths,
    Close,
}

/// The mathematical model of a [`WriterOp`].
pub enum OpModel {
    BeginTraceEvents { file_name: Seq<char> },
    BeginTraceMetadata { file_name: Seq<char> },
    BeginTracePaths { file_name: Seq<char> },
    Start { path: Seq<char>, line: i64 },
    EnsureFunctionId { name: Seq<char>, path: Seq<char>, line: i64 },
    EnsureTypeId { ty: ValueType },
    RegisterRawType { ty: ValueType },
    Arg { name: Seq<char>, value: TraceValueModel },
    RegisterCall,
    RegisterReturn { value: TraceValueModel },
    RegisterErrorEvent { metadata: Seq<char>, content: Seq<char> },
    FinishTraceEvents,
    FinishTraceMetadata,
    FinishTracePaths,
    Close,
}

impl DeepView for WriterOp {
    type V = OpModel;

    open spec fn deep_view(&self) -> OpModel {
        match self {
            WriterOp::BeginTraceEvents { file_name } => OpModel::BeginTraceEvents {
                file_name: file_name@,
            },
            WriterOp::BeginTraceMetadata { file_name } => OpModel::BeginTraceMetadata {
                file_name: file_name@,
            },
            WriterOp::BeginTracePaths { file_name } => OpModel::BeginTracePaths {
                file_name: file_name@,
            },
            WriterOp::Start { path, line } => OpModel::Start { path: path@, line: *line },
            WriterOp::EnsureFunctionId { name, path, line } => OpModel::EnsureFunctionId {
                name: name@,
                path: path@,
                line: *line,
            },
            WriterOp::EnsureTypeId { ty } => OpModel::EnsureTypeId { ty: *ty },
            WriterOp::RegisterRawType { ty } => OpModel::RegisterRawType { ty: *ty },
            WriterOp::Arg { name, value } => OpModel::Arg { name: name@, value: value.deep_view() },
            WriterOp::RegisterCall => OpModel::RegisterCall,
            WriterOp::RegisterReturn { value } => OpModel::RegisterReturn {
                value: value.deep_view(),
            },
            WriterOp::RegisterErrorEvent { metadata, content } => OpModel::RegisterErrorEvent {
                metadata: metadata@,
                content: content@,
            },
            WriterOp::FinishTraceEvents => OpModel::FinishTraceEvents,
            WriterOp::FinishTraceMetadata => OpModel::FinishTraceMetadata,
            WriterOp::FinishTracePaths => OpModel::FinishTracePaths,
            WriterOp::Close => OpModel::Close,
        }
    }
}

} // verus!
