[package]
name = "sync_supervisor"
version = "0.1.0"
edition = "2021"
publish = false

[dependencies]
regex = "1"
clap = "4"
libc = "0.2"
log = "0.4"
pretty_env_logger = "0.5"
sysinfo = "*"
