[package]
name = "jd_client"
version = "0.1.0"
edition = "2021"
publish = false

[dependencies]
codec_sv2 = "1"
key-utils = "*"
roles_logic_sv2 = "1"
tokio = { version = "1", features = ["sync", "rt", "macros"] }
tracing = "0.1"
