[package]
name = "wasmi_cli"
version = "0.1.0"
edition = "2021"
publish = false

[dependencies]
anyhow = "1"
clap = { version = "4", features = ["derive"] }
codetracer_trace_types = "*"
wasmi = "*"
