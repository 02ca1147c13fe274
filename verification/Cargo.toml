[package]
name = "gearsfn"
version = "0.1.0"
edition = "2021"
publish = false

[dependencies]
jsonschema = { version = "*", default-features = false }
serde_json = "1"
serde = { version = "1", features = ["derive"] }
lambda_http = "*"
tokio = { version = "1", features = ["macros", "rt"] }
