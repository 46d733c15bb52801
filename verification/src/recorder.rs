use vstd::prelude::*;

use crate::decimal::{decimal, lemma_decimal_injective, push_decimal};
use crate::format::{events_file_name, CliTraceFormat};
use crate::ops::{OpModel, WriterOp};
use crate::value::{
    trace_value, value_type, wasm_value_record, TraceValue, TraceValueModel, ValueType, WasmValue,
    WasmValueModel,
};

verus! {

/// The source path the top-level call frame is attributed to: module source
/// paths are not recovered, so every call lives in this virtual file.
pub open spec fn virtual_path() -> Seq<char> {
    "<wasmi-program>"@
}

/// The source line of the top-level entry point.
pub open spec fn virtual_line() -> i64 {
    1
}

/// The name under which the invoked function is registered: the empty name of
/// a start-section entry point is shown as `<start>`.
pub open spec fn display_name(func_name: Seq<char>) -> Seq<char> {
    if func_name.len() == 0 {
        "<start>"@
    } else {
        func_name
    }
}

/// The name of the argument at position `idx`: `arg0`, `arg1`, ...
pub open spec fn arg_name(idx: nat) -> Seq<char> {
    "arg"@ + decimal(idx)
}

/// Arguments at distinct positions get distinct names.
pub proof fn lemma_arg_names_distinct(i: nat, j: nat)
    requires
        i != j,
    ensures
        arg_name(i) != arg_name(j),
{
    reveal_strlit("arg");
    if arg_name(i) == arg_name(j) {
        let prefix_len = "arg"@.len() as int;
        assert(decimal(i) =~= arg_name(i).subrange(prefix_len, arg_name(i).len() as int));
        assert(decimal(j) =~= arg_name(j).subrange(prefix_len, arg_name(j).len() as int));
        lemma_decimal_injective(i, j);
    }
}

/// The invoked function is always registered under a non-empty name.
pub proof fn lemma_display_name_nonempty(func_name: Seq<char>)
    ensures
        display_name(func_name).len() > 0,
{
    reveal_strlit("<start>");
}

/// Registering a type before a value of it is written.
pub open spec fn type_ops(ty: ValueType) -> Seq<OpModel> {
    seq![OpModel::EnsureTypeId { ty }, OpModel::RegisterRawType { ty }]
}

/// The type an argument is recorded under: the type of the function's
/// parameter at its position; an argument beyond the parameters is recorded
/// raw.
pub open spec fn arg_type(params: Seq<ValueType>, idx: int) -> ValueType {
    if 0 <= idx < params.len() {
        params[idx]
    } else {
        ValueType::WasmRef
    }
}

/// Staging every argument, in order, under its positional name and the type of
/// its parameter.
pub open spec fn arg_ops(params: Seq<ValueType>, args: Seq<WasmValueModel>) -> Seq<OpModel>
    decreases args.len(),
{
    if args.len() == 0 {
        seq![]
    } else {
        let idx = args.len() - 1;
        arg_ops(params, args.drop_last()) + type_ops(arg_type(params, idx)) + seq![
            OpModel::Arg { name: arg_name(idx as nat), value: trace_value(args.last()) },
        ]
    }
}

/// Opening the trace: the three output streams, then the top-level location.
pub open spec fn open_ops(format: CliTraceFormat) -> Seq<OpModel> {
    seq![
        OpModel::BeginTraceEvents { file_name: events_file_name(format) },
        OpModel::BeginTraceMetadata { file_name: "trace_metadata.json"@ },
        OpModel::BeginTracePaths { file_name: "trace_paths.json"@ },
        OpModel::Start { path: virtual_path(), line: virtual_line() },
    ]
}

/// Opening the top-level call frame of `func_name`, whose parameters have the
/// types `params`, with its arguments.
pub open spec fn call_ops(
    func_name: Seq<char>,
    params: Seq<ValueType>,
    args: Seq<WasmValueModel>,
) -> Seq<OpModel> {
    seq![
        OpModel::EnsureFunctionId {
            name: display_name(func_name),
            path: virtual_path(),
            line: virtual_line(),
        },
    ] + arg_ops(params, args) + seq![OpModel::RegisterCall]
}

/// Closing the top-level frame on success: the first result is the return
/// value, the placeholder "no value" stands in when there is none.
pub open spec fn return_ops(outputs: Seq<WasmValueModel>) -> Seq<OpModel> {
    if outputs.len() == 0 {
        seq![OpModel::RegisterReturn { value: TraceValueModel::NoneValue }]
    } else {
        type_ops(value_type(outputs[0])) + seq![
            OpModel::RegisterReturn { value: trace_value(outputs[0]) },
        ]
    }
}

/// Recording a trap: an error event tagged `wasmi_trap` carrying the message,
/// then the frame is closed with the "no value" placeholder.
pub open spec fn trap_ops(message: Seq<char>) -> Seq<OpModel> {
    seq![
        OpModel::RegisterErrorEvent { metadata: "wasmi_trap"@, content: message },
        OpModel::RegisterReturn { value: TraceValueModel::NoneValue },
    ]
}

/// Flushing and closing the trace; `Close` is what materialises the container.
pub open spec fn finish_ops() -> Seq<OpModel> {
    seq![
        OpModel::FinishTraceEvents,
        OpModel::FinishTraceMetadata,
        OpModel::FinishTracePaths,
        OpModel::Close,
    ]
}

fn push_op(ops: &mut Vec<WriterOp>, op: WriterOp)
    ensures
        final(ops).deep_view() == old(ops).deep_view().push(op.deep_view()),
{
    ops.push(op);
    proof {
        assert(final(ops).deep_view() =~= old(ops).deep_view().push(op.deep_view()));
    }
}

fn virtual_path_string() -> (path: String)
    ensures
        path@ == virtual_path(),
{
    "<wasmi-program>".to_string()
}

/// Appends the operations that register `ty`.
fn stage_type(ops: &mut Vec<WriterOp>, ty: ValueType)
    ensures
        final(ops).deep_view() == old(ops).deep_view() + type_ops(ty),
{
    push_op(ops, WriterOp::EnsureTypeId { ty });
    push_op(ops, WriterOp::RegisterRawType { ty });
    proof {
        assert(final(ops).deep_view() =~= old(ops).deep_view() + type_ops(ty));
    }
}

/// The type the argument at position `idx` is recorded under, given the
/// types of the function's parameters.
pub fn argument_type(params: &Vec<ValueType>, idx: usize) -> (ty: ValueType)
    ensures
        ty == arg_type(params@, idx as int),
{
    if idx < params.len() {
        params[idx]
    } else {
        ValueType::WasmRef
    }
}

/// The name under which the invoked function is registered.
pub fn display_function_name(func_name: &str) -> (name: String)
    ensures
        name@ == display_name(func_name@),
{
    if func_name.is_empty() {
        "<start>".to_string()
    } else {
        func_name.to_string()
    }
}

/// The positional name of the argument at `idx`.
pub fn argument_name(idx: usize) -> (name: String)
    ensures
        name@ == arg_name(idx as nat),
{
    let mut name = "arg".to_string();
    push_decimal(&mut name, idx);
    name
}

/// The recorder bound to one run of the runner: it decides every call made on
/// the trace writer, which `app/` then performs.
pub struct WasmiRecorder {
    program: String,
    out_dir: String,
    format: CliTraceFormat,
}

/// The mathematical model of a [`WasmiRecorder`].
pub struct RecorderModel {
    pub program: Seq<char>,
    pub out_dir: Seq<char>,
    pub format: CliTraceFormat,
}

impl View for WasmiRecorder {
    type V = RecorderModel;

    closed spec fn view(&self) -> RecorderModel {
        RecorderModel { program: self.program@, out_dir: self.out_dir@, format: self.format }
    }
}

impl WasmiRecorder {
    /// Creates a recorder writing `format` into `out_dir` for `program`, and
    /// the writer calls that open the trace: the events, metadata and paths
    /// streams, then the top-level location.
    pub fn new(program: &str, out_dir: &str, format: CliTraceFormat) -> (res: (
        WasmiRecorder,
        Vec<WriterOp>,
    ))
        ensures
            res.0@ == (RecorderModel { program: program@, out_dir: out_dir@, format }),
            res.1.deep_view() == open_ops(format),
    {
        let mut ops: Vec<WriterOp> = Vec::new();
        push_op(&mut ops, WriterOp::BeginTraceEvents {
            file_name: format.events_file_name().to_string(),
        });
        push_op(&mut ops, WriterOp::BeginTraceMetadata {
            file_name: "trace_metadata.json".to_string(),
        });
        push_op(&mut ops, WriterOp::BeginTracePaths { file_name: "trace_paths.json".to_string() });
        push_op(&mut ops, WriterOp::Start { path: virtual_path_string(), line: 1 });
        proof {
            assert(ops.deep_view() =~= open_ops(format));
        }
        let recorder = WasmiRecorder {
            program: program.to_string(),
            out_dir: out_dir.to_string(),
            format,
        };
        (recorder, ops)
    }

    /// The program name the trace is recorded for.
    pub fn program(&self) -> (program: &str)
        ensures
            program@ == self@.program,
    {
        self.program.as_str()
    }

    /// The directory the trace is written to.
    pub fn out_dir(&self) -> (out_dir: &str)
        ensures
            out_dir@ == self@.out_dir,
    {
        self.out_dir.as_str()
    }

    /// The container format of the trace.
    pub fn format(&self) -> (format: CliTraceFormat)
        ensures
            format == self@.format,
    {
        self.format
    }

    /// The writer calls that flush and close the trace: the three streams are
    /// finished in order, then the writer is closed.
    pub fn finish(self) -> (ops: Vec<WriterOp>)
        ensures
            ops.deep_view() == finish_ops(),
    {
        let mut ops: Vec<WriterOp> = Vec::new();
        push_op(&mut ops, WriterOp::FinishTraceEvents);
        push_op(&mut ops, WriterOp::FinishTraceMetadata);
        push_op(&mut ops, WriterOp::FinishTracePaths);
        push_op(&mut ops, WriterOp::Close);
        proof {
            assert(ops.deep_view() =~= finish_ops());
        }
        ops
    }

    /// The writer calls that register the invoked function, stage each
    /// argument as `arg{idx}` under the type of its parameter in `params` (the
    /// function's signature), and open the call frame.
    pub fn register_top_level_call(
        &self,
        func_name: &str,
        params: &Vec<ValueType>,
        args: &Vec<WasmValue>,
    ) -> (ops: Vec<WriterOp>)
        ensures
            ops.deep_view() == call_ops(func_name@, params@, args.deep_view()),
    {
        let mut ops: Vec<WriterOp> = Vec::new();
        push_op(&mut ops, WriterOp::EnsureFunctionId {
            name: display_function_name(func_name),
            path: virtual_path_string(),
            line: 1,
        });
        let ghost head = ops.deep_view();
        let mut idx: usize = 0;
        while idx < args.len()
            invariant
                idx <= args.len(),
                head == seq![
                    OpModel::EnsureFunctionId {
                        name: display_name(func_name@),
                        path: virtual_path(),
                        line: virtual_line(),
                    },
                ],
                ops.deep_view() == head + arg_ops(params@, args.deep_view().take(idx as int)),
            decreases args.len() - idx,
        {
            let ty = argument_type(params, idx);
            stage_type(&mut ops, ty);
            let (value, _) = wasm_value_record(&args[idx]);
            push_op(&mut ops, WriterOp::Arg { name: argument_name(idx), value });
            proof {
                let taken = args.deep_view().take(idx + 1);
                assert(taken.drop_last() =~= args.deep_view().take(idx as int));
                assert(taken.last() == args[idx as int].deep_view());
                assert(ops.deep_view() =~= head + arg_ops(params@, taken));
            }
            idx = idx + 1;
        }
        push_op(&mut ops, WriterOp::RegisterCall);
        proof {
            assert(args.deep_view().take(args.len() as int) =~= args.deep_view());
            assert(ops.deep_view() =~= call_ops(func_name@, params@, args.deep_view()));
        }
        ops
    }

    /// The writer calls that close the top-level frame on success. Only the
    /// first result is recorded; with no result the frame is closed with the
    /// "no value" placeholder.
    pub fn register_top_level_return(&self, outputs: &Vec<WasmValue>) -> (ops: Vec<WriterOp>)
        ensures
            ops.deep_view() == return_ops(outputs.deep_view()),
    {
        let mut ops: Vec<WriterOp> = Vec::new();
        if outputs.len() == 0 {
            push_op(&mut ops, WriterOp::RegisterReturn { value: TraceValue::NoneValue });
        } else {
            let (value, ty) = wasm_value_record(&outputs[0]);
            stage_type(&mut ops, ty);
            push_op(&mut ops, WriterOp::RegisterReturn { value });
        }
        proof {
            assert(ops.deep_view() =~= return_ops(outputs.deep_view()));
        }
        ops
    }

    /// The writer calls that record a runtime trap with its rendered
    /// `message`: an error event tagged `wasmi_trap`, then the frame is closed
    /// with the "no value" placeholder so the trace stays well formed.
    pub fn register_trap(&self, message: &str) -> (ops: Vec<WriterOp>)
        ensures
            ops.deep_view() == trap_ops(message@),
    {
        let mut ops: Vec<WriterOp> = Vec::new();
        push_op(&mut ops, WriterOp::RegisterErrorEvent {
            metadata: "wasmi_trap".to_string(),
            content: message.to_string(),
        });
        push_op(&mut ops, WriterOp::RegisterReturn { value: TraceValue::NoneValue });
        proof {
            assert(ops.deep_view() =~= trap_ops(message@));
        }
        ops
    }
}

/// Opens a recorder when an output directory was given: without one there is
/// no recorder and nothing is written.
pub fn maybe_open_recorder(program_name: &str, trace_out: Option<&str>, format: CliTraceFormat) -> (res:
    Option<(WasmiRecorder, Vec<WriterOp>)>)
    ensures
        trace_out is None <==> res is None,
        res matches Some(r) ==> {
            &&& r.0@ == (RecorderModel { program: program_name@, out_dir: trace_out.unwrap()@, format })
            &&& r.1.deep_view() == open_ops(format)
        },
{
    match trace_out {
        None => None,
        Some(out_dir) => Some(WasmiRecorder::new(program_name, out_dir, format)),
    }
}

} // verus!
