[package]
name = "s3_file_manager"
version = "0.1.0"
edition = "2021"
publish = false

[dependencies]
clap = { version = "3", features = ["derive", "env"] }
glob = "0.3"
rusoto_core = "0.48"
rusoto_s3 = "0.48"
serde = { version = "1", features = ["derive"] }
tokio = { version = "1", features = ["full"] }
