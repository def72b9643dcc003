[package]
name = "judge_runner"
version = "0.1.0"
edition = "2021"
publish = false

[dependencies]
anyhow = "1"
byte-unit = "5"
cgroups-rs = "*"
tokio = { version = "1", features = ["fs", "io-util", "macros", "process", "rt-multi-thread", "time"] }
uuid = { version = "1", features = ["v4"] }
