[package]
name = "instrumented_core"
version = "0.1.0"
edition = "2021"
publish = false

[dependencies]
prometheus = { version = "=0.7.0", features = ["process"] }
syn = { version = "=0.15.44", features = ["full", "extra-traits"] }
quote = "=0.6.13"
proc-macro2 = "=0.4.30"
darling = "=0.9.0"
hyper = "=0.12.36"
tokio = "=0.1.22"
lazy_static = "=1.5.1"
log = "=0.4.34"
