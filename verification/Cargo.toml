[package]
name = "trampoline_gen"
version = "0.1.0"
edition = "2021"
publish = false

[dependencies]
proc-macro2 = "1"
quote = "1"
syn = { version = "2", features = ["full", "visit-mut"] }
tokio = { version = "1", features = ["rt"] }
async-trait = "0.1"
