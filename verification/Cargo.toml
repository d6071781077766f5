[package]
name = "pkg_export_container"
version = "0.1.0"
edition = "2021"
publish = false

[dependencies]
base64 = "0.13"
rusoto_core = { version = "0.48", default-features = false, features = ["rustls"] }
rusoto_credential = "0.48"
rusoto_ecr = { version = "0.48", default-features = false, features = ["rustls"] }
tokio = { version = "1", features = ["rt"] }
