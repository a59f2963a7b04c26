[package]
name = "mockiato"
version = "0.1.0"
edition = "2021"
publish = false

[dependencies]
heck = "0.3"
nearly_eq = "0.2"
syn = { version = "0.15", features = ["full", "visit-mut", "extra-traits"] }
quote = "0.6"
proc-macro2 = "0.4"
