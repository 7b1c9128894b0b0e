[package]
name = "naam"
version = "0.1.0"
edition = "2021"
publish = false

[dependencies]
proc-macro2 = "1"
quote = "1"
stable_deref_trait = "1"
syn = { version = "2", features = ["full", "visit"] }
synstructure = "0.13"
