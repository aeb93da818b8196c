[package]
name = "near-vm-runner"
version = "0.1.0"
edition = "2021"
publish = false

[dependencies]
anyhow = "=1.0.104"
near-runtime-fees = "=0.9.1"
near-vm-errors = "=0.9.1"
near-vm-logic = "=0.9.1"
# Not used by this crate's code. The derive macros that near-vm-errors builds
# on import `syn::export`, which later releases of syn 1 no longer have.
syn = "=1.0.57"
wasmtime = "=0.25.0"
