[package]
name = "nova-sandbox"
version = "0.1.1"
edition = "2021"
publish = false

[dependencies]
cgroups-fs = "=1.2.0"
clap = "=2.34.0"
libmount = "=0.1.15"
log = "=0.4.34"
nix = { version = "=0.29.0", features = ["fs", "mount", "process", "sched", "signal"] }
pretty_env_logger = "=0.5.0"
uuid = { version = "=1.29.0", features = ["v4"] }
wait-timeout = "=0.2.1"
