[package]
name = "fm_inspect"
version = "0.1.0"
edition = "2021"
publish = false

[dependencies]
anyhow = "*"
base64 = "*"
dotenvy = "*"
reqwest = { version = "*", features = ["json"] }
serde = { version = "*", features = ["derive"] }
thirtyfour = "*"
tokio = { version = "*", features = ["macros", "rt-multi-thread", "time"] }
walkdir = "*"
