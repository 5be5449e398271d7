[package]
name = "call_input_rule"
version = "0.1.0"
edition = "2021"
publish = false

[dependencies]
wdl-analysis = "=0.17.2"
wdl-ast = "=0.21.1"
