[package]
name = "qasm_harness"
version = "0.1.0"
edition = "2021"
publish = false

[dependencies]
miette = { version = "7", features = ["fancy-no-syscall"] }
expect-test = "1"
difference = "2"
