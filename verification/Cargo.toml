[package]
name = "pil_stark_prover"
version = "0.1.0"
edition = "2021"
publish = false

[dependencies]
itertools = "0.12"
log = "0.4"
thiserror = "1.0"
