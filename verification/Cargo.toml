[package]
name = "lapce_java"
version = "0.1.0"
edition = "2021"
publish = false

[dependencies]
anyhow = "1"
flate2 = "1"
lapce-plugin = "0.1"
serde_json = "1"
tar = "0.4"
