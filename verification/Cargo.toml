[package]
name = "kubectl_rsh"
version = "0.1.0"
edition = "2021"
publish = false

[dependencies]
nix = { version = "*", features = ["term", "ioctl", "signal", "process", "fs"] }
kube = { version = "*", features = ["client", "ws"] }
k8s-openapi = { version = "*", features = ["latest"] }
tokio = { version = "*", features = ["full"] }
tokio-stream = { version = "*", features = ["signal", "time"] }
futures-channel = "*"
http = "*"
log = "*"
env_logger = "*"
