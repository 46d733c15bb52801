use vstd::prelude::*;

verus! {

/// The trace container formats the runner can write.
///
/// `Ctfs` is the canonical multi-stream container and the default; the others
/// are kept for round-trip diagnostics.
#[derive(Debug, Clone, Copy, PartialEq, Eq, Structural)]
pub enum CliTraceFormat {
    /// Canonical CodeTracer multi-stream container (recommended).
    Ctfs,
    /// Legacy CBOR + Zstd binary format.
    Binary,
    /// Older CBOR + Zstd binary format (kept for round-trip diagnostics).
    BinaryV0,
    /// Human-readable JSON (slower; useful for debugging).
    Json,
}

/// The stable lowercase identifier of a format.
pub open spec fn format_name(format: CliTraceFormat) -> Seq<char> {
    match format {
        CliTraceFormat::Ctfs => "ctfs"@,
        CliTraceFormat::Binary => "binary"@,
        CliTraceFormat::BinaryV0 => "binary_v0"@,
        CliTraceFormat::Json => "json"@,
    }
}

/// The file, inside the output directory, that receives the trace events.
pub open spec fn events_file_name(format: CliTraceFormat) -> Seq<char> {
    match format {
        CliTraceFormat::Json => "trace.json"@,
        _ => "trace.bin"@,
    }
}

impl Default for CliTraceFormat {
    fn default() -> (format: CliTraceFormat)
        ensures
            format == CliTraceFormat::Ctfs,
    {
        CliTraceFormat::Ctfs
    }
}

impl CliTraceFormat {
    /// Stable lowercase identifier, as accepted on the command line and used in
    /// diagnostics: `ctfs`, `binary`, `binary_v0` or `json`.
    pub fn as_str(self) -> (name: &'static str)
        ensures
            name@ == format_name(self),
    {
        match self {
            CliTraceFormat::Ctfs => "ctfs",
            CliTraceFormat::Binary => "binary",
            CliTraceFormat::BinaryV0 => "binary_v0",
            CliTraceFormat::Json => "json",
        }
    }

    /// The name of the events file the writer opens in the output directory:
    /// `trace.json` for the JSON format, `trace.bin` for every binary one.
    pub fn events_file_name(self) -> (name: &'static str)
        ensures
            name@ == events_file_name(self),
    {
        match self {
            CliTraceFormat::Json => "trace.json",
            CliTraceFormat::Binary | CliTraceFormat::BinaryV0 | CliTraceFormat::Ctfs => "trace.bin",
        }
    }
}

/// The identifiers of distinct formats are distinct, so a name selects at most
/// one format.
pub proof fn lemma_format_names_distinct(a: CliTraceFormat, b: CliTraceFormat)
    requires
        a != b,
    ensures
        format_name(a) != format_name(b),
{
    reveal_strlit("ctfs");
    reveal_strlit("binary");
    reveal_strlit("binary_v0");
    reveal_strlit("json");
    if format_name(a) == format_name(b) {
        let (x, y) = (format_name(a), format_name(b));
        assert(x.len() == y.len());
        assert(x[0] == y[0]);
        assert(x[x.len() - 1] == y[y.len() - 1]);
    }
}

} // verus!
