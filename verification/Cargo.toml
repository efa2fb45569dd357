[package]
name = "filehost"
version = "0.1.0"
edition = "2021"
publish = false

[dependencies]
blake3 = { version = "1", features = ["pure"] }
chrono = "0.4"
dotenv = "0.15"
infer = "*"
rocket = { version = "0.5", features = ["json"] }
rocket_okapi = { version = "*", features = ["swagger", "rapidoc"] }
sqlx = { version = "*", default-features = false, features = ["runtime-tokio", "postgres", "chrono"] }
uuid = { version = "1", features = ["v4"] }
