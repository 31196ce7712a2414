[package]
name = "b2get"
version = "0.1.0"
edition = "2021"
publish = false

[dependencies]
sha1 = "*"
base16ct = { version = "*", features = ["alloc"] }
reqwest = { version = "*", default-features = false, features = ["json", "stream"] }
tokio = { version = "*", features = ["rt", "macros", "fs", "io-util"] }
futures-util = "*"
serde = { version = "*", features = ["derive"] }
clap = { version = "*", features = ["derive", "env"] }
indicatif = "*"
anyhow = "*"
