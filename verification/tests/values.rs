use wasmi_cli::{
    argument_name, display_function_name, push_decimal, wasm_value_record, TraceValue, TypeKind,
    ValueType, WasmValue,
};

#[test]
fn integers_are_recorded_sign_extended() {
    assert_eq!(
        wasm_value_record(&WasmValue::I32(-1)),
        (TraceValue::Int(-1), ValueType::I32)
    );
    assert_eq!(
        wasm_value_record(&WasmValue::I32(i32::MAX)),
        (TraceValue::Int(2147483647), ValueType::I32)
    );
    assert_eq!(
        wasm_value_record(&WasmValue::I64(i64::MIN)),
        (TraceValue::Int(i64::MIN), ValueType::I64)
    );
}

#[test]
fn floats_keep_their_bits() {
    let half = 0.5f32.to_bits();
    assert_eq!(
        wasm_value_record(&WasmValue::F32(half)),
        (TraceValue::Float32(half), ValueType::F32)
    );
    let tenth = 0.1f64.to_bits();
    assert_eq!(
        wasm_value_record(&WasmValue::F64(tenth)),
        (TraceValue::Float64(tenth), ValueType::F64)
    );
}

#[test]
fn other_values_are_recorded_raw() {
    let text = "V128(0x0)".to_string();
    assert_eq!(
        wasm_value_record(&WasmValue::Other(text.clone())),
        (TraceValue::Raw(text), ValueType::WasmRef)
    );
}

#[test]
fn null_and_extern_references_have_placeholders() {
    assert_eq!(
        wasm_value_record(&WasmValue::FuncRef(None)),
        (TraceValue::Raw("<funcref>".to_string()), ValueType::WasmRef)
    );
    assert_eq!(
        wasm_value_record(&WasmValue::FuncRef(Some("FuncRef(Func(7))".to_string()))),
        (TraceValue::Raw("FuncRef(Func(7))".to_string()), ValueType::WasmRef)
    );
    assert_eq!(
        wasm_value_record(&WasmValue::ExternRef),
        (TraceValue::Raw("<externref>".to_string()), ValueType::WasmRef)
    );
}

#[test]
fn value_types_have_kinds_and_names() {
    assert_eq!(ValueType::I32.kind(), TypeKind::Int);
    assert_eq!(ValueType::I64.kind(), TypeKind::Int);
    assert_eq!(ValueType::F32.kind(), TypeKind::Float);
    assert_eq!(ValueType::F64.kind(), TypeKind::Float);
    assert_eq!(ValueType::WasmRef.kind(), TypeKind::Raw);
    assert_eq!(ValueType::I32.lang_type(), "i32");
    assert_eq!(ValueType::I64.lang_type(), "i64");
    assert_eq!(ValueType::F32.lang_type(), "f32");
    assert_eq!(ValueType::F64.lang_type(), "f64");
    assert_eq!(ValueType::WasmRef.lang_type(), "wasm-ref");
}

#[test]
fn arguments_are_named_by_position() {
    assert_eq!(argument_name(0), "arg0");
    assert_eq!(argument_name(1), "arg1");
    assert_eq!(argument_name(9), "arg9");
    assert_eq!(argument_name(10), "arg10");
    assert_eq!(argument_name(1234), "arg1234");
}

#[test]
fn argument_names_are_distinct() {
    let names: Vec<String> = (0..200).map(argument_name).collect();
    for i in 0..names.len() {
        for j in 0..names.len() {
            assert_eq!(i == j, names[i] == names[j]);
        }
    }
}

#[test]
fn decimal_rendering_appends() {
    let mut out = "x=".to_string();
    push_decimal(&mut out, 0);
    assert_eq!(out, "x=0");
    let mut out = String::new();
    push_decimal(&mut out, usize::MAX);
    assert_eq!(out, usize::MAX.to_string());
    let mut out = String::new();
    push_decimal(&mut out, 1000);
    assert_eq!(out, "1000");
}

#[test]
fn start_entry_point_is_shown_as_start() {
    assert_eq!(display_function_name(""), "<start>");
    assert_eq!(display_function_name("add"), "add");
    assert_eq!(display_function_name("_start"), "_start");
}
