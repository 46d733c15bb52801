use wasmi_cli::CliTraceFormat;

#[test]
fn format_names_are_snake_case() {
    assert_eq!(CliTraceFormat::Ctfs.as_str(), "ctfs");
    assert_eq!(CliTraceFormat::Binary.as_str(), "binary");
    assert_eq!(CliTraceFormat::BinaryV0.as_str(), "binary_v0");
    assert_eq!(CliTraceFormat::Json.as_str(), "json");
}

#[test]
fn format_names_are_distinct() {
    let all = [
        CliTraceFormat::Ctfs,
        CliTraceFormat::Binary,
        CliTraceFormat::BinaryV0,
        CliTraceFormat::Json,
    ];
    for a in all {
        for b in all {
            assert_eq!(a == b, a.as_str() == b.as_str());
        }
    }
}

#[test]
fn default_format_is_ctfs() {
    assert_eq!(CliTraceFormat::default(), CliTraceFormat::Ctfs);
    assert_eq!(CliTraceFormat::default().as_str(), "ctfs");
}

#[test]
fn events_file_follows_format() {
    assert_eq!(CliTraceFormat::Json.events_file_name(), "trace.json");
    assert_eq!(CliTraceFormat::Ctfs.events_file_name(), "trace.bin");
    assert_eq!(CliTraceFormat::Binary.events_file_name(), "trace.bin");
    assert_eq!(CliTraceFormat::BinaryV0.events_file_name(), "trace.bin");
}
