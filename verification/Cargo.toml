[package]
name = "qarax"
version = "0.1.0"
edition = "2021"
publish = false

[dependencies]
uuid = { version = "*", features = ["v4"] }
oci-client = "*"
tokio = { version = "*", features = ["full"] }
serde = { version = "*", features = ["derive"] }
serde_json = "*"
flate2 = "*"
tar = "*"
clap = { version = "*", features = ["derive"] }
tracing = "*"
tracing-subscriber = "*"
anyhow = "*"
thiserror = "*"
nix = { version = "*", features = ["mount", "process", "signal", "socket"] }
libc = "*"
hyper = { version = "*", features = ["client", "http1"] }
http-body-util = "*"
bytes = "*"
hyperlocal = "*"
gethostname = "*"
