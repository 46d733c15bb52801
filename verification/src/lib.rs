//! Verified core of the wasmi command-line runner with CodeTracer recording.
//!
//! The library decides everything the recorder does: which writer calls are
//! made, in which order and with which arguments, how wasm values become trace
//! values, and how the runner reacts to the outcome of the invoked function.
//! The program in `app/` performs those decisions against the wasmi runtime
//! and the trace writer.
//!
//! - `format`: the trace container formats and their names;
//! - `value`: wasm values, trace values and trace types;
//! - `decimal`: decimal rendering of argument positions;
//! - `ops`: the calls made on the trace writer;
//! - `recorder`: the recorder and the writer calls of each of its steps;
//! - `cli`: selecting the invoked function and ending a run;
//! - `shape`: what a well-formed trace is, and that every recorded run is one;
//! - `laws`: what each step of a recorded run writes, stated over its inputs;
//! - `tracer`: the tracer bound to a wasm executable.
pub mod cli;
pub mod decimal;
pub mod format;
pub mod laws;
pub mod ops;
pub mod recorder;
pub mod shape;
pub mod tracer;
pub mod value;

pub use cli::{
    conclude_call, fuel_consumed, invoked_func_name, typecheck_args, ArgCountMismatch, CallEnd,
    CallOutcome, EntryError, ExitAction,
};
pub use decimal::push_decimal;
pub use format::CliTraceFormat;
pub use ops::WriterOp;
pub use recorder::{
    argument_name, argument_type, display_function_name, maybe_open_recorder, WasmiRecorder,
};
pub use tracer::{add, WasmTracer};
pub use value::{wasm_value_record, TraceValue, TypeKind, ValueType, WasmValue};
