[package]
name = "gbhwdb"
version = "0.1.0"
edition = "2021"
publish = false

[dependencies]
anyhow = "*"
base64 = "*"
log = "*"
md-5 = "*"
rayon = "*"
rusoto_core = { version = "*", default-features = false, features = ["rustls"] }
rusoto_s3 = { version = "*", default-features = false, features = ["rustls"] }
serde = { version = "*", features = ["derive"] }
serde_json = "*"
simplelog = "*"
time = { version = "*", features = ["parsing"] }
tokio = { version = "*", features = ["fs", "macros", "rt-multi-thread"] }
walkdir = "*"
xdg-mime = "*"
