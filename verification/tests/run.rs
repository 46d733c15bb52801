use wasmi_cli::{
    conclude_call, fuel_consumed, invoked_func_name, typecheck_args, ArgCountMismatch, CallOutcome,
    CliTraceFormat, EntryError, ExitAction, TraceValue, ValueType, WasmValue, WasmiRecorder, WriterOp,
};

fn s(text: &str) -> String {
    text.to_string()
}

fn full_run(outcome: &CallOutcome, results: &Vec<WasmValue>) -> Vec<WriterOp> {
    let (rec, mut ops) = WasmiRecorder::new("m.wasm", "out", CliTraceFormat::Ctfs);
    ops.extend(rec.register_top_level_call(
        "f",
        &vec![ValueType::I32, ValueType::I64],
        &vec![WasmValue::I32(1), WasmValue::I64(2)],
    ));
    let end = conclude_call(Some(rec), "f", outcome, results);
    ops.extend(end.record);
    ops.extend(end.finish);
    ops
}

fn assert_well_formed(ops: &[WriterOp]) {
    let n = ops.len();
    assert!(matches!(ops[0], WriterOp::BeginTraceEvents { .. }));
    assert!(matches!(ops[1], WriterOp::BeginTraceMetadata { .. }));
    assert!(matches!(ops[2], WriterOp::BeginTracePaths { .. }));
    assert!(matches!(ops[3], WriterOp::Start { .. }));
    assert_eq!(
        &ops[n - 4..],
        &[
            WriterOp::FinishTraceEvents,
            WriterOp::FinishTraceMetadata,
            WriterOp::FinishTracePaths,
            WriterOp::Close,
        ]
    );
    let mut depth: i64 = 0;
    for op in ops {
        match op {
            WriterOp::RegisterCall => depth += 1,
            WriterOp::RegisterReturn { .. } => {
                depth -= 1;
                assert!(depth >= 0);
            }
            _ => {}
        }
    }
    assert_eq!(depth, 0);
}

#[test]
fn every_outcome_yields_a_well_formed_trace() {
    let results = vec![WasmValue::I32(3)];
    assert_well_formed(&full_run(&CallOutcome::Completed, &results));
    assert_well_formed(&full_run(&CallOutcome::Completed, &Vec::new()));
    assert_well_formed(&full_run(&CallOutcome::Exited { code: 3 }, &results));
    assert_well_formed(&full_run(
        &CallOutcome::Trapped { detail: s("unreachable"), summary: s("unreachable") },
        &results,
    ));
}

#[test]
fn completed_call_returns_and_fails_on_finish_errors() {
    let (rec, _) = WasmiRecorder::new("m", "o", CliTraceFormat::Ctfs);
    let end = conclude_call(Some(rec), "add", &CallOutcome::Completed, &vec![WasmValue::I32(42)]);
    assert_eq!(end.record[2], WriterOp::RegisterReturn { value: TraceValue::Int(42) });
    assert_eq!(end.finish.len(), 4);
    assert!(end.finish_failure_is_fatal);
    assert_eq!(end.exit, ExitAction::Success);
}

#[test]
fn proc_exit_counts_as_a_return() {
    let (rec, _) = WasmiRecorder::new("m", "o", CliTraceFormat::Ctfs);
    let end = conclude_call(Some(rec), "_start", &CallOutcome::Exited { code: 7 }, &Vec::new());
    assert_eq!(end.record, vec![WriterOp::RegisterReturn { value: TraceValue::NoneValue }]);
    assert!(!end.finish_failure_is_fatal);
    assert_eq!(end.exit, ExitAction::ExitWith { code: 7 });
}

#[test]
fn trap_is_recorded_then_the_run_fails() {
    let (rec, _) = WasmiRecorder::new("m", "o", CliTraceFormat::Ctfs);
    let outcome = CallOutcome::Trapped {
        detail: s("wasm trap: wasm `unreachable` instruction executed"),
        summary: s("unreachable executed"),
    };
    let end = conclude_call(Some(rec), "boom", &outcome, &Vec::new());
    assert_eq!(
        end.record[0],
        WriterOp::RegisterErrorEvent {
            metadata: s("wasmi_trap"),
            content: s("wasm trap: wasm `unreachable` instruction executed"),
        }
    );
    assert_eq!(end.record[1], WriterOp::RegisterReturn { value: TraceValue::NoneValue });
    assert!(!end.finish_failure_is_fatal);
    assert_eq!(
        end.exit,
        ExitAction::Fail { message: s("failed during execution of boom: unreachable executed") }
    );
}

#[test]
fn without_recorder_nothing_is_written() {
    let end = conclude_call(None, "add", &CallOutcome::Completed, &vec![WasmValue::I32(1)]);
    assert!(end.record.is_empty());
    assert!(end.finish.is_empty());
    assert_eq!(end.exit, ExitAction::Success);
}

#[test]
fn requested_function_must_be_exported() {
    let exports = vec![s("add"), s("")];
    assert_eq!(invoked_func_name(Some(s("add")), &exports), Ok(s("add")));
    assert_eq!(
        invoked_func_name(Some(s("sub")), &exports),
        Err(EntryError::NotExported { name: s("sub") })
    );
}

#[test]
fn wasi_entry_points_in_order() {
    assert_eq!(invoked_func_name(None, &vec![s("_start"), s("")]), Ok(s("")));
    assert_eq!(invoked_func_name(None, &vec![s("add"), s("_start")]), Ok(s("_start")));
    assert_eq!(invoked_func_name(None, &vec![s("add")]), Err(EntryError::NoEntryPoint));
    assert_eq!(invoked_func_name(None, &Vec::new()), Err(EntryError::NoEntryPoint));
}

#[test]
fn argument_count_must_match() {
    assert_eq!(typecheck_args(2, 2), Ok(()));
    assert_eq!(typecheck_args(0, 0), Ok(()));
    assert_eq!(
        typecheck_args(2, 1),
        Err(ArgCountMismatch { expected: 2, received: 1 })
    );
}

#[test]
fn fuel_consumption_saturates() {
    assert_eq!(fuel_consumed(100, 58), 42);
    assert_eq!(fuel_consumed(100, 100), 0);
    assert_eq!(fuel_consumed(5, 9), 0);
}
