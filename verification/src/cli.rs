use vstd::prelude::*;

use crate::ops::{OpModel, WriterOp};
use crate::recorder::{finish_ops, return_ops, trap_ops, WasmiRecorder};
use crate::value::{WasmValue, WasmValueModel};

verus! {

/// How the invoked function ended.
#[derive(Debug, Clone, PartialEq)]
pub enum CallOutcome {
    /// It returned normally.
    Completed,
    /// The WASI program exited through `proc_exit` with this status.
    Exited { code: i32 },
    /// It trapped; `detail` is the full rendering of the error (recorded in
    /// the trace), `summary` its one-line rendering (reported to the user).
    Trapped { detail: String, summary: String },
}

/// The mathematical model of a [`CallOutcome`].
pub enum CallOutcomeModel {
    Completed,
    Exited { code: i32 },
    Trapped { detail: Seq<char>, summary: Seq<char> },
}

impl DeepView for CallOutcome {
    type V = CallOutcomeModel;

    open spec fn deep_view(&self) -> CallOutcomeModel {
        match self {
            CallOutcome::Completed => CallOutcomeModel::Completed,
            CallOutcome::Exited { code } => CallOutcomeModel::Exited { code: *code },
            CallOutcome::Trapped { detail, summary } => CallOutcomeModel::Trapped {
                detail: detail@,
                summary: summary@,
            },
        }
    }
}

/// How the runner terminates once the trace is closed.
#[derive(Debug, Clone, PartialEq)]
pub enum ExitAction {
    /// Print the remaining fuel and the results, then exit successfully.
    Success,
    /// Print the remaining fuel and the results, then exit with this status.
    ExitWith { code: i32 },
    /// Fail with this message.
    Fail { message: String },
}

/// What the runner does after the invoked function ended.
pub struct CallEnd {
    /// Writer calls that close the top-level frame.
    pub record: Vec<WriterOp>,
    /// Writer calls that flush and close the trace, made after `record`.
    pub finish: Vec<WriterOp>,
    /// Whether a failure while finishing the trace makes the run fail; when it
    /// does not, the failure is only reported as a warning.
    pub finish_failure_is_fatal: bool,
    /// How the runner terminates.
    pub exit: ExitAction,
}

/// The writer calls that close the top-level frame for an outcome: a `proc_exit`
/// counts as a normal return, a trap is recorded as an error event.
pub open spec fn closing_ops(outcome: CallOutcomeModel, results: Seq<WasmValueModel>) -> Seq<OpModel> {
    match outcome {
        CallOutcomeModel::Trapped { detail, .. } => trap_ops(detail),
        _ => return_ops(results),
    }
}

/// A WASI `proc_exit` closes the top-level frame exactly like a normal return.
pub proof fn lemma_exit_closes_like_return(code: i32, results: Seq<WasmValueModel>)
    ensures
        closing_ops(CallOutcomeModel::Exited { code }, results) == closing_ops(
            CallOutcomeModel::Completed,
            results,
        ),
{
}

/// The message the runner fails with after a trap in `func_name`.
pub open spec fn failure_message(func_name: Seq<char>, summary: Seq<char>) -> Seq<char> {
    "failed during execution of "@ + func_name + ": "@ + summary
}

/// Decides how the run ends: which writer calls close the trace (none without
/// a recorder), whether a failure to finish the trace is fatal, and how the
/// runner terminates.
pub fn conclude_call(
    recorder: Option<WasmiRecorder>,
    func_name: &str,
    outcome: &CallOutcome,
    results: &Vec<WasmValue>,
) -> (end: CallEnd)
    ensures
        recorder is None ==> end.record.len() == 0 && end.finish.len() == 0,
        recorder is Some ==> end.record.deep_view() == closing_ops(
            outcome.deep_view(),
            results.deep_view(),
        ) && end.finish.deep_view() == finish_ops(),
        end.finish_failure_is_fatal == (outcome is Completed),
        match outcome.deep_view() {
            CallOutcomeModel::Completed => end.exit is Success,
            CallOutcomeModel::Exited { code } => end.exit == (ExitAction::ExitWith { code }),
            CallOutcomeModel::Trapped { summary, .. } => end.exit matches ExitAction::Fail {
                message,
            } && message@ == failure_message(func_name@, summary),
        },
{
    let (record, finish) = match recorder {
        None => (Vec::new(), Vec::new()),
        Some(rec) => {
            let record = match outcome {
                CallOutcome::Trapped { detail, .. } => rec.register_trap(detail.as_str()),
                _ => rec.register_top_level_return(results),
            };
            (record, rec.finish())
        },
    };
    let exit = match outcome {
        CallOutcome::Completed => ExitAction::Success,
        CallOutcome::Exited { code } => ExitAction::ExitWith { code: *code },
        CallOutcome::Trapped { summary, .. } => {
            let mut message = "failed during execution of ".to_string();
            message.append(func_name);
            message.append(": ");
            message.append(summary.as_str());
            ExitAction::Fail { message }
        },
    };
    let finish_failure_is_fatal = match outcome {
        CallOutcome::Completed => true,
        _ => false,
    };
    CallEnd { record, finish, finish_failure_is_fatal, exit }
}

/// Why no function could be selected for invocation.
#[derive(Debug, Clone, PartialEq)]
pub enum EntryError {
    /// The function requested with `--invoke` is not exported.
    NotExported { name: String },
    /// `--invoke` was not given and neither WASI entry point is exported.
    NoEntryPoint,
}

/// The name of the function to invoke, given the requested one and the names
/// of the exported functions: the requested one if it is exported; without a
/// request, the WASI entry point `""`, else `_start`, whichever is exported.
pub open spec fn invoked_func(invoked: Option<Seq<char>>, exports: Seq<Seq<char>>) -> Result<
    Seq<char>,
    Option<Seq<char>>,
> {
    match invoked {
        Some(name) => if exports.contains(name) {
            Ok(name)
        } else {
            Err(Some(name))
        },
        None => if exports.contains(Seq::<char>::empty()) {
            Ok(Seq::<char>::empty())
        } else if exports.contains("_start"@) {
            Ok("_start"@)
        } else {
            Err(None)
        },
    }
}

fn exports_contain(exports: &Vec<String>, name: &String) -> (found: bool)
    ensures
        found == exports.deep_view().contains(name@),
{
    let mut idx: usize = 0;
    while idx < exports.len()
        invariant
            idx <= exports.len(),
            forall|j: int| 0 <= j < idx ==> exports[j]@ != name@,
        decreases exports.len() - idx,
    {
        if exports[idx] == *name {
            assert(exports.deep_view()[idx as int] == name@);
            return true;
        }
        idx = idx + 1;
    }
    proof {
        if exports.deep_view().contains(name@) {
            let k = choose|k: int| 0 <= k < exports.deep_view().len() && exports.deep_view()[k] == name@;
            assert(exports[k]@ == name@);
        }
    }
    false
}

/// Selects the function to invoke: the one named with `--invoke` if it is
/// among the exported functions, otherwise the conventional WASI entry point
/// `""` or else `_start`.
pub fn invoked_func_name(invoked: Option<String>, exports: &Vec<String>) -> (res: Result<
    String,
    EntryError,
>)
    ensures
        match invoked_func(
            match invoked {
                Some(n) => Some(n@),
                None => None,
            },
            exports.deep_view(),
        ) {
            Ok(name) => res matches Ok(r) && r@ == name,
            Err(Some(name)) => res matches Err(EntryError::NotExported { name: n }) && n@ == name,
            Err(None) => res matches Err(EntryError::NoEntryPoint),
        },
{
    match invoked {
        Some(name) => {
            if exports_contain(exports, &name) {
                Ok(name)
            } else {
                Err(EntryError::NotExported { name })
            }
        },
        None => {
            let start_section = String::new();
            let wasi_start = "_start".to_string();
            if exports_contain(exports, &start_section) {
                Ok(start_section)
            } else if exports_contain(exports, &wasi_start) {
                Ok(wasi_start)
            } else {
                Err(EntryError::NoEntryPoint)
            }
        },
    }
}

/// The argument count did not match the function's parameter count.
#[derive(Debug, Clone, Copy, PartialEq, Eq, Structural)]
pub struct ArgCountMismatch {
    pub expected: usize,
    pub received: usize,
}

/// Checks that as many arguments were given as the function has parameters.
pub fn typecheck_args(param_count: usize, arg_count: usize) -> (res: Result<(), ArgCountMismatch>)
    ensures
        res is Ok <==> param_count == arg_count,
        res matches Err(e) ==> e == (ArgCountMismatch { expected: param_count, received: arg_count }),
{
    if param_count != arg_count {
        Err(ArgCountMismatch { expected: param_count, received: arg_count })
    } else {
        Ok(())
    }
}

/// The fuel consumed by a run that was given `given` units and has `remaining`
/// left; zero if more remains than was given.
pub fn fuel_consumed(given: u64, remaining: u64) -> (consumed: u64)
    ensures
        consumed == if given >= remaining { given - remaining } else { 0 },
{
    if given >= remaining {
        given - remaining
    } else {
        0
    }
}

} // verus!
