[package]
name = "mriqc1"
version = "0.1.0"
edition = "2021"
publish = false

[dependencies]
anyhow = "1"
futures = "0.3"
indicatif = "0.15"
libc = "0.2"
structopt = "0.3"
tempfile = "3"
thiserror = "1"
tokio = { version = "1", features = ["fs", "io-std", "io-util", "macros", "process", "rt-multi-thread", "signal", "time"] }
