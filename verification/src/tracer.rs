use vstd::prelude::*;

verus! {

/// Adds two unsigned integers.
pub fn add(left: u64, right: u64) -> (sum: u64)
    requires
        left + right <= u64::MAX,
    ensures
        sum == left + right,
{
    left + right
}

/// Debug information attached to a wasm executable; for now only its path.
#[derive(Debug, Clone)]
struct DebugInfo {
    wasm_exe_path: String,
}

impl DebugInfo {
    fn new(wasm_exe_path: &str) -> (info: DebugInfo)
        ensures
            info.wasm_exe_path@ == wasm_exe_path@,
    {
        DebugInfo { wasm_exe_path: wasm_exe_path.to_string() }
    }
}

/// A tracer bound to one wasm executable.
#[derive(Debug, Clone)]
pub struct WasmTracer {
    debug_info: DebugInfo,
}

impl View for WasmTracer {
    /// The path of the wasm executable the tracer is bound to.
    type V = Seq<char>;

    closed spec fn view(&self) -> Seq<char> {
        self.debug_info.wasm_exe_path@
    }
}

impl WasmTracer {
    /// Creates a tracer for the wasm executable at `wasm_exe_path`.
    pub fn new(wasm_exe_path: &str) -> (tracer: WasmTracer)
        ensures
            tracer@ == wasm_exe_path@,
    {
        WasmTracer { debug_info: DebugInfo::new(wasm_exe_path) }
    }

    /// The path of the wasm executable this tracer is bound to.
    pub fn wasm_exe_path(&self) -> (path: &str)
        ensures
            path@ == self@,
    {
        self.debug_info.wasm_exe_path.as_str()
    }
}

} // verus!
