[package]
name = "openvmm_ctl"
version = "0.1.0"
edition = "2021"
publish = false

[dependencies]
anyhow = "1.0.104"
clap = { version = "4.5.61", features = ["derive"] }
