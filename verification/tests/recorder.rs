use wasmi_cli::{
    argument_type, maybe_open_recorder, CliTraceFormat, TraceValue, ValueType, WasmValue, WasmiRecorder, WriterOp,
};

fn s(text: &str) -> String {
    text.to_string()
}

fn recorder() -> WasmiRecorder {
    WasmiRecorder::new("ctfs_add.wat", "/tmp/trace", CliTraceFormat::Ctfs).0
}

#[test]
fn opening_begins_three_streams_then_starts() {
    let (rec, ops) = WasmiRecorder::new("ctfs_add.wat", "/tmp/trace", CliTraceFormat::Ctfs);
    assert_eq!(rec.program(), "ctfs_add.wat");
    assert_eq!(rec.out_dir(), "/tmp/trace");
    assert_eq!(rec.format(), CliTraceFormat::Ctfs);
    assert_eq!(
        ops,
        vec![
            WriterOp::BeginTraceEvents { file_name: s("trace.bin") },
            WriterOp::BeginTraceMetadata { file_name: s("trace_metadata.json") },
            WriterOp::BeginTracePaths { file_name: s("trace_paths.json") },
            WriterOp::Start { path: s("<wasmi-program>"), line: 1 },
        ]
    );
}

#[test]
fn json_format_writes_trace_json() {
    let (_, ops) = WasmiRecorder::new("p", "d", CliTraceFormat::Json);
    assert_eq!(ops[0], WriterOp::BeginTraceEvents { file_name: s("trace.json") });
}

#[test]
fn finishing_closes_after_the_three_streams() {
    assert_eq!(
        recorder().finish(),
        vec![
            WriterOp::FinishTraceEvents,
            WriterOp::FinishTraceMetadata,
            WriterOp::FinishTracePaths,
            WriterOp::Close,
        ]
    );
}

#[test]
fn top_level_call_stages_positional_args() {
    let ops = recorder().register_top_level_call(
        "add",
        &vec![ValueType::I32, ValueType::I32],
        &vec![WasmValue::I32(7), WasmValue::I32(35)],
    );
    assert_eq!(
        ops,
        vec![
            WriterOp::EnsureFunctionId { name: s("add"), path: s("<wasmi-program>"), line: 1 },
            WriterOp::EnsureTypeId { ty: ValueType::I32 },
            WriterOp::RegisterRawType { ty: ValueType::I32 },
            WriterOp::Arg { name: s("arg0"), value: TraceValue::Int(7) },
            WriterOp::EnsureTypeId { ty: ValueType::I32 },
            WriterOp::RegisterRawType { ty: ValueType::I32 },
            WriterOp::Arg { name: s("arg1"), value: TraceValue::Int(35) },
            WriterOp::RegisterCall,
        ]
    );
}

#[test]
fn start_section_call_without_args() {
    let ops = recorder().register_top_level_call("", &Vec::new(), &Vec::new());
    assert_eq!(
        ops,
        vec![
            WriterOp::EnsureFunctionId { name: s("<start>"), path: s("<wasmi-program>"), line: 1 },
            WriterOp::RegisterCall,
        ]
    );
}

#[test]
fn mixed_argument_types() {
    let ops = recorder().register_top_level_call(
        "f",
        &vec![ValueType::I64, ValueType::F64, ValueType::WasmRef],
        &vec![WasmValue::I64(-3), WasmValue::F64(2.5f64.to_bits()), WasmValue::ExternRef],
    );
    assert_eq!(ops.len(), 11);
    assert_eq!(ops[1], WriterOp::EnsureTypeId { ty: ValueType::I64 });
    assert_eq!(ops[3], WriterOp::Arg { name: s("arg0"), value: TraceValue::Int(-3) });
    assert_eq!(ops[4], WriterOp::EnsureTypeId { ty: ValueType::F64 });
    assert_eq!(
        ops[6],
        WriterOp::Arg { name: s("arg1"), value: TraceValue::Float64(2.5f64.to_bits()) }
    );
    assert_eq!(ops[8], WriterOp::RegisterRawType { ty: ValueType::WasmRef });
    assert_eq!(ops[9], WriterOp::Arg { name: s("arg2"), value: TraceValue::Raw(s("<externref>")) });
    assert_eq!(ops[10], WriterOp::RegisterCall);
}

#[test]
fn arguments_take_the_type_of_their_parameter_or_raw() {
    let ops = recorder().register_top_level_call(
        "g",
        &vec![ValueType::I32],
        &vec![WasmValue::I64(5), WasmValue::F32(1.5f32.to_bits())],
    );
    assert_eq!(
        ops,
        vec![
            WriterOp::EnsureFunctionId { name: s("g"), path: s("<wasmi-program>"), line: 1 },
            WriterOp::EnsureTypeId { ty: ValueType::I32 },
            WriterOp::RegisterRawType { ty: ValueType::I32 },
            WriterOp::Arg { name: s("arg0"), value: TraceValue::Int(5) },
            WriterOp::EnsureTypeId { ty: ValueType::WasmRef },
            WriterOp::RegisterRawType { ty: ValueType::WasmRef },
            WriterOp::Arg { name: s("arg1"), value: TraceValue::Float32(1.5f32.to_bits()) },
            WriterOp::RegisterCall,
        ]
    );
}

#[test]
fn argument_type_prefers_the_signature() {
    let params = vec![ValueType::F64, ValueType::I32];
    assert_eq!(argument_type(&params, 0), ValueType::F64);
    assert_eq!(argument_type(&params, 1), ValueType::I32);
    assert_eq!(argument_type(&params, 2), ValueType::WasmRef);
    assert_eq!(argument_type(&Vec::new(), 0), ValueType::WasmRef);
}

#[test]
fn return_records_the_first_result_only() {
    let ops = recorder().register_top_level_return(&vec![WasmValue::I32(42), WasmValue::I32(1)]);
    assert_eq!(
        ops,
        vec![
            WriterOp::EnsureTypeId { ty: ValueType::I32 },
            WriterOp::RegisterRawType { ty: ValueType::I32 },
            WriterOp::RegisterReturn { value: TraceValue::Int(42) },
        ]
    );
}

#[test]
fn return_without_results_records_no_value() {
    let ops = recorder().register_top_level_return(&Vec::new());
    assert_eq!(ops, vec![WriterOp::RegisterReturn { value: TraceValue::NoneValue }]);
}

#[test]
fn trap_records_error_event_and_closes_frame() {
    let ops = recorder().register_trap("wasm trap: wasm `unreachable` instruction executed");
    assert_eq!(
        ops,
        vec![
            WriterOp::RegisterErrorEvent {
                metadata: s("wasmi_trap"),
                content: s("wasm trap: wasm `unreachable` instruction executed"),
            },
            WriterOp::RegisterReturn { value: TraceValue::NoneValue },
        ]
    );
}

#[test]
fn no_trace_out_means_no_recorder() {
    assert!(maybe_open_recorder("p", None, CliTraceFormat::Ctfs).is_none());
}

#[test]
fn trace_out_opens_a_recorder() {
    let (rec, ops) = maybe_open_recorder("p", Some("/tmp/t"), CliTraceFormat::BinaryV0).unwrap();
    assert_eq!(rec.out_dir(), "/tmp/t");
    assert_eq!(rec.program(), "p");
    assert_eq!(rec.format(), CliTraceFormat::BinaryV0);
    assert_eq!(ops.len(), 4);
    assert_eq!(ops[0], WriterOp::BeginTraceEvents { file_name: s("trace.bin") });
}
