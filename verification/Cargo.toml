[package]
name = "ytcore"
version = "0.1.0"
edition = "2021"
publish = false

[dependencies]
dotenv = "*"
reqwest = { version = "*", default-features = false, features = ["json"] }
serde = { version = "*", features = ["derive"] }
tokio = { version = "*", features = ["full"] }
