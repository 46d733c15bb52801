use vstd::prelude::*;

use crate::cli::{closing_ops, failure_message, invoked_func, CallOutcomeModel};
use crate::decimal::{decimal, digit_char, lemma_decimal_nonempty};
use crate::format::{format_name, CliTraceFormat};
use crate::ops::OpModel;
use crate::recorder::{arg_ops, call_ops, finish_ops, open_ops, return_ops};
use crate::value::{
    lang_type, trace_value, type_kind, value_type, TraceValueModel, TypeKind, ValueType,
    WasmValueModel,
};

verus! {

/// The argument operations are three per argument: the type of the
/// argument's parameter (raw beyond the parameters) is obtained and
/// registered, then the argument is staged under its positional name.
proof fn lemma_arg_ops_layout(params: Seq<ValueType>, args: Seq<WasmValueModel>)
    ensures
        arg_ops(params, args).len() == 3 * args.len(),
        forall|i: int|
            #![trigger args[i]]
            0 <= i < args.len() ==> {
                let ty = if i < params.len() {
                    params[i]
                } else {
                    ValueType::WasmRef
                };
                &&& arg_ops(params, args)[3 * i] == OpModel::EnsureTypeId { ty }
                &&& arg_ops(params, args)[3 * i + 1] == OpModel::RegisterRawType { ty }
                &&& arg_ops(params, args)[3 * i + 2] == OpModel::Arg {
                    name: "arg"@ + decimal(i as nat),
                    value: trace_value(args[i]),
                }
            },
    decreases args.len(),
{
    if args.len() > 0 {
        let prev = args.drop_last();
        lemma_arg_ops_layout(params, prev);
        let ops = arg_ops(params, args);
        let before = arg_ops(params, prev);
        assert forall|i: int|
            #![trigger args[i]]
            0 <= i < args.len() implies {
                let ty = if i < params.len() {
                    params[i]
                } else {
                    ValueType::WasmRef
                };
                &&& ops[3 * i] == OpModel::EnsureTypeId { ty }
                &&& ops[3 * i + 1] == OpModel::RegisterRawType { ty }
                &&& ops[3 * i + 2] == OpModel::Arg {
                    name: "arg"@ + decimal(i as nat),
                    value: trace_value(args[i]),
                }
            } by {
            if i < prev.len() {
                assert(prev[i] == args[i]);
                assert(ops[3 * i] == before[3 * i]);
                assert(ops[3 * i + 1] == before[3 * i + 1]);
                assert(ops[3 * i + 2] == before[3 * i + 2]);
            }
        }
    }
}

/// Recording the top-level call registers the invoked function (an empty name
/// as `<start>`) at `<wasmi-program>:1`, then for each argument `i`, in order,
/// obtains and registers exactly the type of its parameter in the signature
/// (the raw type when there is no such parameter) and stages the argument's
/// value as `arg{i}`, and finally opens the call frame.
pub proof fn lemma_call_registers_signature_types(
    func_name: Seq<char>,
    params: Seq<ValueType>,
    args: Seq<WasmValueModel>,
)
    ensures
        ({
            let ops = call_ops(func_name, params, args);
            &&& ops.len() == 3 * args.len() + 2
            &&& ops[0] == OpModel::EnsureFunctionId {
                name: if func_name.len() == 0 {
                    "<start>"@
                } else {
                    func_name
                },
                path: "<wasmi-program>"@,
                line: 1,
            }
            &&& ops[ops.len() - 1] == OpModel::RegisterCall
            &&& forall|i: int|
                #![trigger args[i]]
                0 <= i < args.len() ==> {
                    let ty = if i < params.len() {
                        params[i]
                    } else {
                        ValueType::WasmRef
                    };
                    &&& ops[3 * i + 1] == OpModel::EnsureTypeId { ty }
                    &&& ops[3 * i + 2] == OpModel::RegisterRawType { ty }
                    &&& ops[3 * i + 3] == OpModel::Arg {
                        name: "arg"@ + decimal(i as nat),
                        value: trace_value(args[i]),
                    }
                }
        }),
{
    lemma_arg_ops_layout(params, args);
    let ops = call_ops(func_name, params, args);
    let mid = arg_ops(params, args);
    assert forall|i: int|
        #![trigger args[i]]
        0 <= i < args.len() implies {
            let ty = if i < params.len() {
                params[i]
            } else {
                ValueType::WasmRef
            };
            &&& ops[3 * i + 1] == OpModel::EnsureTypeId { ty }
            &&& ops[3 * i + 2] == OpModel::RegisterRawType { ty }
            &&& ops[3 * i + 3] == OpModel::Arg {
                name: "arg"@ + decimal(i as nat),
                value: trace_value(args[i]),
            }
        } by {
        assert(ops[3 * i + 1] == mid[3 * i]);
        assert(ops[3 * i + 2] == mid[3 * i + 1]);
        assert(ops[3 * i + 3] == mid[3 * i + 2]);
    }
}

/// Closing the frame after a return records only the first result: with no
/// result, a return of the "no value" placeholder; otherwise the first
/// result's own wasm type (`i32` as `I32`, `i64` as `I64`, `f32` as `F32`,
/// `f64` as `F64`, anything else raw) is obtained and registered, then the
/// first result is returned. Results after the first change nothing.
pub proof fn lemma_return_records_first_result_typed(outputs: Seq<WasmValueModel>)
    ensures
        outputs.len() == 0 ==> return_ops(outputs) == seq![
            OpModel::RegisterReturn { value: TraceValueModel::NoneValue },
        ],
        outputs.len() > 0 ==> {
            let ops = return_ops(outputs);
            let v = outputs[0];
            &&& ops.len() == 3
            &&& ops[0] is EnsureTypeId
            &&& ops[1] == OpModel::RegisterRawType { ty: ops[0]->EnsureTypeId_ty }
            &&& ops[2] == OpModel::RegisterReturn { value: trace_value(v) }
            &&& v is I32 ==> ops[0]->EnsureTypeId_ty == ValueType::I32
            &&& v is I64 ==> ops[0]->EnsureTypeId_ty == ValueType::I64
            &&& v is F32 ==> ops[0]->EnsureTypeId_ty == ValueType::F32
            &&& v is F64 ==> ops[0]->EnsureTypeId_ty == ValueType::F64
            &&& (v is FuncRef || v is ExternRef || v is Other) ==> ops[0]->EnsureTypeId_ty
                == ValueType::WasmRef
        },
        outputs.len() > 0 ==> return_ops(outputs) == return_ops(seq![outputs[0]]),
{
    if outputs.len() > 0 {
        assert(seq![outputs[0]][0] == outputs[0]);
    }
}

/// How each wasm value is recorded: integers as integers sign-extended to 64
/// bits, floats by their bits, an extern reference as `<externref>`, a null
/// function reference as `<funcref>`, any other value by its rendering; each
/// under its own wasm type, references and other values raw.
pub proof fn lemma_values_recorded_by_kind(v: WasmValueModel)
    ensures
        match v {
            WasmValueModel::I32(i) => trace_value(v) == TraceValueModel::Int(i as i64)
                && value_type(v) == ValueType::I32,
            WasmValueModel::I64(i) => trace_value(v) == TraceValueModel::Int(i) && value_type(v)
                == ValueType::I64,
            WasmValueModel::F32(b) => trace_value(v) == TraceValueModel::Float32(b)
                && value_type(v) == ValueType::F32,
            WasmValueModel::F64(b) => trace_value(v) == TraceValueModel::Float64(b)
                && value_type(v) == ValueType::F64,
            WasmValueModel::FuncRef(None) => trace_value(v) == TraceValueModel::Raw("<funcref>"@)
                && value_type(v) == ValueType::WasmRef,
            WasmValueModel::FuncRef(Some(s)) => trace_value(v) == TraceValueModel::Raw(s)
                && value_type(v) == ValueType::WasmRef,
            WasmValueModel::ExternRef => trace_value(v) == TraceValueModel::Raw("<externref>"@)
                && value_type(v) == ValueType::WasmRef,
            WasmValueModel::Other(s) => trace_value(v) == TraceValueModel::Raw(s) && value_type(v)
                == ValueType::WasmRef,
        },
{
}

/// Each trace type is registered under its wasm name and the matching kind:
/// `i32` and `i64` are integers, `f32` and `f64` floats, `wasm-ref` raw.
pub proof fn lemma_value_types_named(ty: ValueType)
    ensures
        match ty {
            ValueType::I32 => lang_type(ty) == "i32"@ && type_kind(ty) == TypeKind::Int,
            ValueType::I64 => lang_type(ty) == "i64"@ && type_kind(ty) == TypeKind::Int,
            ValueType::F32 => lang_type(ty) == "f32"@ && type_kind(ty) == TypeKind::Float,
            ValueType::F64 => lang_type(ty) == "f64"@ && type_kind(ty) == TypeKind::Float,
            ValueType::WasmRef => lang_type(ty) == "wasm-ref"@ && type_kind(ty) == TypeKind::Raw,
        },
{
}

/// The names of the formats on the command line and in diagnostics.
pub proof fn lemma_format_names(format: CliTraceFormat)
    ensures
        match format {
            CliTraceFormat::Ctfs => format_name(format) == "ctfs"@,
            CliTraceFormat::Binary => format_name(format) == "binary"@,
            CliTraceFormat::BinaryV0 => format_name(format) == "binary_v0"@,
            CliTraceFormat::Json => format_name(format) == "json"@,
        },
{
}

/// Finishing the trace finishes the events, metadata and paths streams, in
/// that order, then closes the writer; nothing else.
pub proof fn lemma_finish_closes_last()
    ensures
        finish_ops() == seq![
            OpModel::FinishTraceEvents,
            OpModel::FinishTraceMetadata,
            OpModel::FinishTracePaths,
            OpModel::Close,
        ],
{
}

/// A completed call and a WASI exit close the frame as a return of the
/// results, whatever the exit status.
pub proof fn lemma_return_outcomes_close_as_return(code: i32, results: Seq<WasmValueModel>)
    ensures
        closing_ops(CallOutcomeModel::Completed, results) == return_ops(results),
        closing_ops(CallOutcomeModel::Exited { code }, results) == return_ops(results),
{
}

/// The value of a sequence of decimal digits, most significant first.
pub open spec fn digits_value(s: Seq<char>) -> int
    decreases s.len(),
{
    if s.len() == 0 {
        0
    } else {
        digits_value(s.drop_last()) * 10 + (s.last() as int - '0' as int)
    }
}

proof fn lemma_digit_char_value(d: nat)
    requires
        d < 10,
    ensures
        digit_char(d) as int - '0' as int == d,
        '0' <= digit_char(d) <= '9',
{
}

/// The decimal rendering of a number consists of decimal digits only, has no
/// leading zero (but for zero itself), and reads back as the number.
pub proof fn lemma_decimal_reads_back(n: nat)
    ensures
        forall|i: int| 0 <= i < decimal(n).len() ==> '0' <= #[trigger] decimal(n)[i] <= '9',
        decimal(n).len() > 1 ==> decimal(n)[0] != '0',
        digits_value(decimal(n)) == n,
    decreases n,
{
    lemma_decimal_nonempty(n);
    if n >= 10 {
        lemma_decimal_reads_back(n / 10);
        lemma_decimal_nonempty(n / 10);
        let s = decimal(n);
        assert(s.drop_last() =~= decimal(n / 10));
        assert(s[0] == decimal(n / 10)[0]);
        if decimal(n / 10).len() == 1 {
            assert(n / 10 < 10);
            assert(n / 10 >= 1);
        }
        assert(forall|i: int| 0 <= i < s.len() - 1 ==> s[i] == decimal(n / 10)[i]);
        lemma_digit_char_value(n % 10);
        assert(s.last() == digit_char(n % 10));
        assert(digits_value(s) == digits_value(decimal(n / 10)) * 10 + (n % 10));
        assert((n / 10) * 10 + n % 10 == n);
    } else {
        lemma_digit_char_value(n);
        assert(decimal(n).drop_last() =~= Seq::<char>::empty());
        assert(decimal(n).last() == digit_char(n));
        assert(digits_value(Seq::<char>::empty()) == 0);
        assert(digits_value(decimal(n)) == digits_value(decimal(n).drop_last()) * 10 + (
        decimal(n).last() as int - '0' as int));
    }
}

/// The message a trapped run fails with names the invoked function and ends
/// with the trap's one-line rendering.
pub proof fn lemma_failure_message_names_function(func_name: Seq<char>, summary: Seq<char>)
    ensures
        ({
            let m = failure_message(func_name, summary);
            let p = "failed during execution of "@;
            &&& m.len() == p.len() + func_name.len() + 2 + summary.len()
            &&& m.subrange(0, p.len() as int) == p
            &&& m.subrange(p.len() as int, (p.len() + func_name.len()) as int) == func_name
            &&& m.subrange((p.len() + func_name.len()) as int, (p.len() + func_name.len() + 2) as int) == ": "@
            &&& m.subrange(m.len() - summary.len(), m.len() as int) == summary
        }),
{
    reveal_strlit(": ");
    let m = failure_message(func_name, summary);
    let p = "failed during execution of "@;
    assert(m.subrange(0, p.len() as int) =~= p);
    assert(m.subrange(p.len() as int, (p.len() + func_name.len()) as int) =~= func_name);
    assert(m.subrange((p.len() + func_name.len()) as int, (p.len() + func_name.len() + 2) as int) =~= ": "@);
    assert(m.subrange(m.len() - summary.len(), m.len() as int) =~= summary);
}

/// A trap, whatever results the runner holds, closes the frame with exactly
/// an error event tagged `wasmi_trap` carrying the trap's full rendering,
/// followed by a return of the "no value" placeholder.
pub proof fn lemma_trap_closes_with_error_event(
    detail: Seq<char>,
    summary: Seq<char>,
    results: Seq<WasmValueModel>,
    other_results: Seq<WasmValueModel>,
)
    ensures
        closing_ops(CallOutcomeModel::Trapped { detail, summary }, results) == seq![
            OpModel::RegisterErrorEvent { metadata: "wasmi_trap"@, content: detail },
            OpModel::RegisterReturn { value: TraceValueModel::NoneValue },
        ],
        closing_ops(CallOutcomeModel::Trapped { detail, summary }, results) == closing_ops(
            CallOutcomeModel::Trapped { detail, summary },
            other_results,
        ),
{
    assert(closing_ops(CallOutcomeModel::Trapped { detail, summary }, results) =~= seq![
        OpModel::RegisterErrorEvent { metadata: "wasmi_trap"@, content: detail },
        OpModel::RegisterReturn { value: TraceValueModel::NoneValue },
    ]);
}

/// Opening the trace begins the events stream in `trace.json` for the JSON
/// format and in `trace.bin` for every binary format, then the metadata and
/// paths streams, then starts at `<wasmi-program>:1`.
pub proof fn lemma_open_begins_events_by_format(format: CliTraceFormat)
    ensures
        open_ops(format) == seq![
            OpModel::BeginTraceEvents {
                file_name: if format == CliTraceFormat::Json {
                    "trace.json"@
                } else {
                    "trace.bin"@
                },
            },
            OpModel::BeginTraceMetadata { file_name: "trace_metadata.json"@ },
            OpModel::BeginTracePaths { file_name: "trace_paths.json"@ },
            OpModel::Start { path: "<wasmi-program>"@, line: 1 },
        ],
{
    assert(open_ops(format) =~= seq![
        OpModel::BeginTraceEvents {
            file_name: if format == CliTraceFormat::Json {
                "trace.json"@
            } else {
                "trace.bin"@
            },
        },
        OpModel::BeginTraceMetadata { file_name: "trace_metadata.json"@ },
        OpModel::BeginTracePaths { file_name: "trace_paths.json"@ },
        OpModel::Start { path: "<wasmi-program>"@, line: 1 },
    ]);
}

/// A function requested by name is the one selected when it is exported, and
/// otherwise the selection fails naming it: no other function is ever run in
/// its place. Without a request, the selected function is an exported WASI
/// entry point, `""` before `_start`, and the selection fails only when
/// neither is exported.
pub proof fn lemma_invoked_func_selection(invoked: Option<Seq<char>>, exports: Seq<Seq<char>>)
    ensures
        invoked matches Some(name) ==> {
            &&& invoked_func(invoked, exports) matches Ok(n) ==> n == name && exports.contains(
                name,
            )
            &&& exports.contains(name) ==> invoked_func(invoked, exports) is Ok
            &&& !exports.contains(name) ==> invoked_func(invoked, exports) == Err::<
                Seq<char>,
                Option<Seq<char>>,
            >(Some(name))
        },
        invoked is None ==> {
            &&& invoked_func(invoked, exports) matches Ok(n) ==> exports.contains(n) && (n
                == Seq::<char>::empty() || (n == "_start"@ && !exports.contains(
                Seq::<char>::empty(),
            )))
            &&& invoked_func(invoked, exports) is Err <==> !exports.contains(Seq::<char>::empty())
                && !exports.contains("_start"@)
            &&& invoked_func(invoked, exports) matches Err(e) ==> e is None
        },
{
}

} // verus!
