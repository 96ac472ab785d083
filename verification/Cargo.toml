[package]
name = "dynosaur"
version = "0.3.0"
edition = "2021"
publish = false

[dependencies]
proc-macro2 = "1"
quote = "1"
syn = { version = "2", features = ["full", "visit", "visit-mut", "extra-traits"] }
