use vstd::prelude::*;

use crate::cli::{closing_ops, CallOutcomeModel};
use crate::format::CliTraceFormat;
use crate::ops::OpModel;
use crate::recorder::{
    arg_name, arg_ops, arg_type, call_ops, finish_ops, open_ops, return_ops, trap_ops, type_ops,
};
use crate::value::{
    lemma_record_kind_matches_type, trace_value, type_kind, value_kind, value_type,
    TraceValueModel, ValueType, WasmValueModel,
};

verus! {

/// The depth of open call frames after `ops`, starting from `start`; `None`
/// once a frame is closed that was never opened.
pub open spec fn frame_depth(start: Option<nat>, ops: Seq<OpModel>) -> Option<nat>
    decreases ops.len(),
{
    if ops.len() == 0 {
        start
    } else {
        match frame_depth(start, ops.drop_last()) {
            None => None,
            Some(d) => match ops.last() {
                OpModel::RegisterCall => Some(d + 1),
                OpModel::RegisterReturn { .. } => if d == 0 {
                    None
                } else {
                    Some((d - 1) as nat)
                },
                _ => Some(d),
            },
        }
    }
}

/// Whether an operation opens or closes a frame.
pub open spec fn is_frame_op(op: OpModel) -> bool {
    op is RegisterCall || op is RegisterReturn
}

/// Whether an operation belongs to opening or closing the trace itself.
pub open spec fn is_lifecycle_op(op: OpModel) -> bool {
    ||| op is BeginTraceEvents
    ||| op is BeginTraceMetadata
    ||| op is BeginTracePaths
    ||| op is Start
    ||| op is FinishTraceEvents
    ||| op is FinishTraceMetadata
    ||| op is FinishTracePaths
    ||| op is Close
}

/// The value an operation writes, if it writes one.
pub open spec fn written_value(op: OpModel) -> Option<TraceValueModel> {
    match op {
        OpModel::Arg { value, .. } => Some(value),
        OpModel::RegisterReturn { value } => Some(value),
        _ => None,
    }
}

/// The value written at `i`, if it needs a type, is preceded by the two
/// calls that obtain and register a type.
#[verifier::opaque]
pub open spec fn value_typed_at(ops: Seq<OpModel>, i: int) -> bool {
    (written_value(ops[i]) is Some && value_kind(written_value(ops[i])->0) is Some) ==> {
        &&& i >= 2
        &&& ops[i - 2] is EnsureTypeId
        &&& ops[i - 1] == OpModel::RegisterRawType { ty: ops[i - 2]->EnsureTypeId_ty }
    }
}

/// Every written value that needs a type is preceded by the two calls that
/// obtain and register a type.
pub open spec fn values_typed(ops: Seq<OpModel>) -> bool {
    forall|i: int| 0 <= i < ops.len() ==> #[trigger] value_typed_at(ops, i)
}

/// The value written at `i`, if it needs a type, is of the kind of the type
/// obtained two calls before it.
#[verifier::opaque]
pub open spec fn value_fits_type_at(ops: Seq<OpModel>, i: int) -> bool {
    (written_value(ops[i]) is Some && value_kind(written_value(ops[i])->0) is Some) ==> {
        &&& i >= 2
        &&& value_kind(written_value(ops[i])->0) == Some(type_kind(ops[i - 2]->EnsureTypeId_ty))
    }
}

/// Every written value that needs a type is of the kind of its type.
pub open spec fn values_fit_types(ops: Seq<OpModel>) -> bool {
    forall|i: int| 0 <= i < ops.len() ==> #[trigger] value_fits_type_at(ops, i)
}

/// Each argument is of the kind of the type it is recorded under: its
/// parameter's type, or the raw type beyond the parameters.
pub open spec fn args_fit_params(params: Seq<ValueType>, args: Seq<WasmValueModel>) -> bool {
    forall|i: int|
        0 <= i < args.len() ==> type_kind(arg_type(params, i)) == type_kind(
            value_type(#[trigger] args[i]),
        )
}

/// Every frame is opened for a function whose id was obtained before.
pub open spec fn calls_have_functions(ops: Seq<OpModel>) -> bool {
    forall|i: int|
        #![trigger ops[i]]
        0 <= i < ops.len() && ops[i] is RegisterCall ==> exists|k: int|
            0 <= k < i && #[trigger] ops[k] is EnsureFunctionId
}

/// A structurally well-formed trace: it opens the three streams and the
/// top-level location first, finishes the three streams and closes the writer
/// last and nowhere else, closes every frame it opens and no other, writes
/// every typed value right after obtaining and registering a type, and opens
/// every frame for a registered function.
pub open spec fn well_formed_trace(ops: Seq<OpModel>) -> bool {
    &&& ops.len() >= 8
    &&& ops[0] is BeginTraceEvents
    &&& ops[1] is BeginTraceMetadata
    &&& ops[2] is BeginTracePaths
    &&& ops[3] is Start
    &&& ops.subrange(ops.len() - 4, ops.len() as int) == finish_ops()
    &&& forall|i: int| 4 <= i < ops.len() - 4 ==> !is_lifecycle_op(#[trigger] ops[i])
    &&& frame_depth(Some(0), ops) == Some(0nat)
    &&& values_typed(ops)
    &&& calls_have_functions(ops)
}

proof fn lemma_frame_depth_concat(start: Option<nat>, a: Seq<OpModel>, b: Seq<OpModel>)
    ensures
        frame_depth(start, a + b) == frame_depth(frame_depth(start, a), b),
    decreases b.len(),
{
    if b.len() == 0 {
        assert(a + b =~= a);
    } else {
        assert((a + b).drop_last() =~= a + b.drop_last());
        assert((a + b).last() == b.last());
        lemma_frame_depth_concat(start, a, b.drop_last());
    }
}

proof fn lemma_frame_depth_no_frames(start: Option<nat>, ops: Seq<OpModel>)
    requires
        forall|i: int| 0 <= i < ops.len() ==> !is_frame_op(#[trigger] ops[i]),
    ensures
        frame_depth(start, ops) == start,
    decreases ops.len(),
{
    if ops.len() > 0 {
        assert(!is_frame_op(ops[ops.len() - 1]));
        lemma_frame_depth_no_frames(start, ops.drop_last());
    }
}

proof fn lemma_values_typed_concat(a: Seq<OpModel>, b: Seq<OpModel>)
    requires
        values_typed(a),
        values_typed(b),
    ensures
        values_typed(a + b),
{
    let s = a + b;
    assert forall|i: int| 0 <= i < s.len() implies #[trigger] value_typed_at(s, i) by {
        if i < a.len() {
            assert(value_typed_at(a, i));
            reveal(value_typed_at);
            assert(s[i] == a[i]);
            if i >= 2 {
                assert(s[i - 2] == a[i - 2]);
                assert(s[i - 1] == a[i - 1]);
            }
        } else {
            let j = i - a.len();
            assert(value_typed_at(b, j));
            reveal(value_typed_at);
            assert(s[i] == b[j]);
            if j >= 2 {
                assert(s[i - 2] == b[j - 2]);
                assert(s[i - 1] == b[j - 1]);
            }
        }
    }
}

proof fn lemma_values_fit_types_concat(a: Seq<OpModel>, b: Seq<OpModel>)
    requires
        values_fit_types(a),
        values_fit_types(b),
    ensures
        values_fit_types(a + b),
{
    let s = a + b;
    assert forall|i: int| 0 <= i < s.len() implies #[trigger] value_fits_type_at(s, i) by {
        if i < a.len() {
            assert(value_fits_type_at(a, i));
            reveal(value_fits_type_at);
            assert(s[i] == a[i]);
            if i >= 2 {
                assert(s[i - 2] == a[i - 2]);
            }
        } else {
            let j = i - a.len();
            assert(value_fits_type_at(b, j));
            reveal(value_fits_type_at);
            assert(s[i] == b[j]);
            if j >= 2 {
                assert(s[i - 2] == b[j - 2]);
            }
        }
    }
}

/// Operations that write no typed value need nothing before them.
proof fn lemma_untyped_ops(ops: Seq<OpModel>)
    requires
        forall|i: int|
            0 <= i < ops.len() ==> !(#[trigger] ops[i] is Arg) && (ops[i] is RegisterReturn
                ==> ops[i]->RegisterReturn_value is NoneValue),
    ensures
        values_typed(ops),
        values_fit_types(ops),
{
    reveal(value_typed_at);
    reveal(value_fits_type_at);
}

proof fn lemma_calls_have_functions_concat(a: Seq<OpModel>, b: Seq<OpModel>)
    requires
        calls_have_functions(a),
        calls_have_functions(b),
    ensures
        calls_have_functions(a + b),
{
    let s = a + b;
    assert forall|i: int|
        #![trigger s[i]]
        0 <= i < s.len() && s[i] is RegisterCall implies exists|k: int|
            0 <= k < i && #[trigger] s[k] is EnsureFunctionId by {
        if i < a.len() {
            assert(s[i] == a[i]);
            let k = choose|k: int| 0 <= k < i && #[trigger] a[k] is EnsureFunctionId;
            assert(s[k] == a[k]);
        } else {
            let j = i - a.len();
            assert(s[i] == b[j]);
            let k = choose|k: int| 0 <= k < j && #[trigger] b[k] is EnsureFunctionId;
            assert(s[k + a.len()] == b[k]);
        }
    }
}

proof fn lemma_type_ops_typed(ty: ValueType, last: OpModel)
    requires
        written_value(last) is Some,
    ensures
        values_typed(type_ops(ty) + seq![last]),
        value_kind(written_value(last)->0) == Some(type_kind(ty)) ==> values_fit_types(
            type_ops(ty) + seq![last],
        ),
{
    let s = type_ops(ty) + seq![last];
    assert(s[0] == OpModel::EnsureTypeId { ty });
    assert(s[1] == OpModel::RegisterRawType { ty });
    assert(s[2] == last);
    reveal(value_typed_at);
    reveal(value_fits_type_at);
}

/// The operations that stage arguments open no frame, take no part in
/// opening or closing the trace, and write every argument after registering a
/// type, of the argument's kind when the arguments fit the parameters.
proof fn lemma_arg_ops_shape(params: Seq<ValueType>, args: Seq<WasmValueModel>)
    ensures
        forall|i: int|
            0 <= i < arg_ops(params, args).len() ==> !is_frame_op(
                #[trigger] arg_ops(params, args)[i],
            ) && !is_lifecycle_op(arg_ops(params, args)[i]),
        values_typed(arg_ops(params, args)),
        calls_have_functions(arg_ops(params, args)),
        args_fit_params(params, args) ==> values_fit_types(arg_ops(params, args)),
    decreases args.len(),
{
    if args.len() > 0 {
        let idx = args.len() - 1;
        let ops = arg_ops(params, args);
        let prev = arg_ops(params, args.drop_last());
        let ty = arg_type(params, idx);
        let last = OpModel::Arg { name: arg_name(idx as nat), value: trace_value(args.last()) };
        let tail = type_ops(ty) + seq![last];
        lemma_arg_ops_shape(params, args.drop_last());
        lemma_type_ops_typed(ty, last);
        assert(ops =~= prev + tail);
        lemma_values_typed_concat(prev, tail);
        assert(calls_have_functions(tail));
        lemma_calls_have_functions_concat(prev, tail);
        if args_fit_params(params, args) {
            assert forall|i: int| 0 <= i < args.drop_last().len() implies type_kind(
                arg_type(params, i),
            ) == type_kind(value_type(#[trigger] args.drop_last()[i])) by {
                assert(args.drop_last()[i] == args[i]);
            }
            lemma_record_kind_matches_type(args.last());
            assert(type_kind(arg_type(params, idx)) == type_kind(value_type(args[idx])));
            lemma_values_fit_types_concat(prev, tail);
        }
        assert forall|i: int| 0 <= i < ops.len() implies !is_frame_op(#[trigger] ops[i])
            && !is_lifecycle_op(ops[i]) by {
            if i < prev.len() {
                assert(ops[i] == prev[i]);
            } else {
                assert(ops[i] == tail[i - prev.len()]);
            }
        }
    }
}

/// Closing the frame writes its value after registering its own type and takes no part in
/// opening or closing the trace; it holds exactly one frame operation, last.
proof fn lemma_closing_ops_shape(outcome: CallOutcomeModel, results: Seq<WasmValueModel>)
    ensures
        ({
            let c = closing_ops(outcome, results);
            &&& c.len() >= 1
            &&& c.last() is RegisterReturn
            &&& forall|i: int| 0 <= i < c.len() - 1 ==> !is_frame_op(#[trigger] c[i])
            &&& forall|i: int| 0 <= i < c.len() ==> !is_lifecycle_op(#[trigger] c[i])
            &&& values_typed(c)
            &&& values_fit_types(c)
            &&& calls_have_functions(c)
        }),
{
    let c = closing_ops(outcome, results);
    match outcome {
        CallOutcomeModel::Trapped { detail, .. } => {
            assert(c == trap_ops(detail));
            lemma_untyped_ops(c);
        },
        _ => {
            assert(c == return_ops(results));
            if results.len() > 0 {
                lemma_record_kind_matches_type(results[0]);
                lemma_type_ops_typed(value_type(results[0]), c[2]);
                assert(c =~= type_ops(value_type(results[0])) + seq![c[2]]);
            } else {
                lemma_untyped_ops(c);
            }
        },
    }
}

/// Whatever function is invoked, whatever its signature and arguments, and
/// however it ends (returning, exiting through `proc_exit`, or trapping), the
/// writer calls of one recorded run — opening, the top-level call, its
/// closing, finishing — form a well-formed trace: every frame opened is
/// closed and none is closed that was not opened, the trace is finished and
/// closed last. When every argument is of the kind of the type it is recorded
/// under, every written value is of the kind of the type it is written under.
pub proof fn lemma_recorded_run_well_formed(
    format: CliTraceFormat,
    func_name: Seq<char>,
    params: Seq<ValueType>,
    args: Seq<WasmValueModel>,
    outcome: CallOutcomeModel,
    results: Seq<WasmValueModel>,
)
    ensures
        well_formed_trace(
            open_ops(format) + call_ops(func_name, params, args) + closing_ops(outcome, results)
                + finish_ops(),
        ),
        args_fit_params(params, args) ==> values_fit_types(
            open_ops(format) + call_ops(func_name, params, args) + closing_ops(outcome, results)
                + finish_ops(),
        ),
{
    let a = open_ops(format);
    let b = call_ops(func_name, params, args);
    let c = closing_ops(outcome, results);
    let d = finish_ops();
    let args_part = arg_ops(params, args);
    lemma_arg_ops_shape(params, args);
    lemma_closing_ops_shape(outcome, results);
    let b_head = seq![b[0]];
    assert(b =~= b_head + args_part + seq![OpModel::RegisterCall]);

    // frame depth, block by block
    lemma_frame_depth_no_frames(Some(0), a);
    lemma_frame_depth_no_frames(Some(0), b_head);
    lemma_frame_depth_no_frames(Some(0), args_part);
    lemma_frame_depth_concat(Some(0), b_head, args_part);
    lemma_frame_depth_concat(Some(0), b_head + args_part, seq![OpModel::RegisterCall]);
    assert(b_head[0] is EnsureFunctionId);
    assert(frame_depth(Some(0), b_head + args_part) == Some(0nat));
    assert(seq![OpModel::RegisterCall].drop_last() =~= Seq::<OpModel>::empty());
    assert(frame_depth(Some(0), Seq::<OpModel>::empty()) == Some(0nat));
    assert(frame_depth(Some(0), seq![OpModel::RegisterCall]) == Some(1nat));
    assert(frame_depth(Some(0), b) == Some(1nat));
    lemma_frame_depth_no_frames(Some(1), c.drop_last());
    assert(c =~= c.drop_last().push(c.last()));
    assert(frame_depth(Some(1), c) == Some(0nat));
    lemma_frame_depth_no_frames(Some(0), d);
    lemma_frame_depth_concat(Some(0), a, b);
    lemma_frame_depth_concat(Some(0), a + b, c);
    lemma_frame_depth_concat(Some(0), a + b + c, d);

    // typed values
    lemma_untyped_ops(a);
    lemma_untyped_ops(b_head);
    lemma_untyped_ops(seq![OpModel::RegisterCall]);
    lemma_values_typed_concat(b_head, args_part);
    lemma_values_typed_concat(b_head + args_part, seq![OpModel::RegisterCall]);
    lemma_untyped_ops(d);
    lemma_values_typed_concat(a, b);
    lemma_values_typed_concat(a + b, c);
    lemma_values_typed_concat(a + b + c, d);
    if args_fit_params(params, args) {
        lemma_values_fit_types_concat(b_head, args_part);
        lemma_values_fit_types_concat(b_head + args_part, seq![OpModel::RegisterCall]);
        lemma_values_fit_types_concat(a, b);
        lemma_values_fit_types_concat(a + b, c);
        lemma_values_fit_types_concat(a + b + c, d);
    }

    // functions of calls
    assert(calls_have_functions(a));
    assert(calls_have_functions(b)) by {
        assert forall|i: int| 0 <= i < b.len() && #[trigger] b[i] is RegisterCall implies exists|k: int|
            0 <= k < i && #[trigger] b[k] is EnsureFunctionId by {
            if 1 <= i < b.len() - 1 {
                assert(b[i] == args_part[i - 1]);
            }
            assert(b[0] is EnsureFunctionId);
        }
    }
    assert(calls_have_functions(d));
    lemma_calls_have_functions_concat(a, b);
    lemma_calls_have_functions_concat(a + b, c);
    lemma_calls_have_functions_concat(a + b + c, d);

    // lifecycle operations only at both ends
    let t = a + b + c + d;
    assert(t.subrange(t.len() - 4, t.len() as int) =~= d);
    assert forall|i: int| 4 <= i < t.len() - 4 implies !is_lifecycle_op(#[trigger] t[i]) by {
        if i < 4 + b.len() {
            assert(t[i] == b[i - 4]);
            if 1 <= i - 4 < b.len() - 1 {
                assert(b[i - 4] == args_part[i - 5]);
            }
        } else {
            assert(t[i] == c[i - 4 - b.len()]);
        }
    }
}

} // verus!
