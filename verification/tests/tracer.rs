use wasmi_cli::{add, WasmTracer};

#[test]
fn it_works() {
    let result = add(2, 2);
    assert_eq!(result, 4);
}

#[test]
fn add_reaches_the_largest_sum() {
    assert_eq!(add(u64::MAX - 5, 5), u64::MAX);
    assert_eq!(add(0, 0), 0);
}

#[test]
fn tracer_remembers_its_executable() {
    let tracer = WasmTracer::new("target/app.wasm");
    assert_eq!(tracer.wasm_exe_path(), "target/app.wasm");
    let copy = tracer.clone();
    assert_eq!(copy.wasm_exe_path(), "target/app.wasm");
}
