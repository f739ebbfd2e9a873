[package]
name = "porkg"
version = "0.1.0"
edition = "2021"
publish = false

[dependencies]
nix = { version = "=0.27.1", features = ["mount", "sched", "signal", "user", "fs", "resource", "process", "socket", "mman", "poll", "time"] }
procfs = "=0.18.0"
caps = "=0.5.6"
which = "=8.0.6"
blake3 = "=1.8.7"
bytes = "=1.12.1"
serde = { version = "=1.0.229", features = ["derive"] }
bincode = "=1.3.3"
tokio = { version = "=1.53.2", features = ["net", "rt-multi-thread", "sync", "io-util", "time", "macros"] }
async-lock = "=3.4.2"
uds = { version = "=0.4.2", features = ["tokio"] }
anyhow = "=1.0.104"
thiserror = "=2.0.21"

[dev-dependencies]
data-encoding = "=2.11.1"
