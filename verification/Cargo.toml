[package]
name = "lychee_lib"
version = "0.1.0"
edition = "2021"
publish = false

[dependencies]
url = "2.5"
either = "1"
linkify = "0.10"
clap = { version = "4", default-features = false, features = ["std"] }
serde = "1"
serde-aux = { version = "4", default-features = false }
