[package]
name = "guest_runtime"
version = "0.1.0"
edition = "2021"
publish = false

[dependencies]
clap = { version = "=4.6.7", features = ["derive"] }
libafl = "=0.15.4"
libafl_bolts = "=0.15.4"
libafl_targets = { version = "=0.15.4", features = ["sancov_pcguard_edges", "sancov_cmplog", "libfuzzer", "pointer_maps"] }
libc = "=0.2.191"
log = "=0.4.34"
mimalloc = "=0.1.52"
symcc_runtime = "=0.15.4"
thiserror = "=2.0.21"
