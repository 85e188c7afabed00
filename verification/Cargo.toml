[package]
name = "codemigrator"
version = "0.1.0"
edition = "2021"
publish = false

[dependencies]
anyhow = "1"
clap = { version = "4", features = ["derive"] }
gix = "*"

[dev-dependencies]
tempfile = "3"
