[package]
name = "enclave_runner"
version = "0.1.0"
edition = "2021"
publish = false

[dependencies]
byteorder = "1"
crossbeam = "0.8"
failure = "0.1"
futures = "0.3"
lazy_static = "1"
libc = "0.2"
nix = { version = "*", features = ["signal"] }
num_cpus = "1"
tokio = { version = "1", features = ["rt", "net", "io-std", "io-util", "sync", "time"] }

[dev-dependencies]
fortanix-sgx-abi = "*"
