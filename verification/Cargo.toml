[package]
name = "jobflow"
version = "0.1.0"
edition = "2021"
publish = false

[dependencies]
colored = "2"
dotenv = "0.15"
image = "0.24"
image_compressor = "1"
imageproc = "0.23"
inquire = "0.7"
regex = "1"
rusttype = "0.9"
serde_json = "1"
tokio = { version = "1", features = ["macros", "rt-multi-thread"] }
