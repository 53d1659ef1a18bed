[package]
name = "fswitcher"
version = "0.1.0"
edition = "2021"
publish = false

[dependencies]
chrono = "*"
futures-util = "*"
input = "*"
tokio = { version = "*", features = ["macros", "rt-multi-thread", "net", "io-util"] }
zbus = { version = "*", default-features = false, features = ["tokio"] }
