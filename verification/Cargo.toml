[package]
name = "nickel_cursor"
version = "0.1.0"
edition = "2021"
publish = false

[dependencies]
anyhow = "*"
clap = { version = "*", features = ["derive"] }
nickel-lang-core = "*"
serde = { version = "*", features = ["derive"] }
serde_json = "*"
svgtypes = "*"
tiny-skia = "*"
