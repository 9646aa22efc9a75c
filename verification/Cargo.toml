[package]
name = "zero2prod"
version = "0.1.0"
edition = "2021"
publish = false

[dependencies]
unicode-segmentation = "=1.13.3"
validator = "=0.16.1"
base64 = "=0.13.1"
actix-web = "=4.18.1"
tokio = { version = "=1.54.1", features = ["macros", "rt-multi-thread"] }
serde = { version = "=1.0.229", features = ["derive"] }
config = { version = "=0.13.4", default-features = false, features = ["yaml"] }
secrecy = { version = "=0.8.0", features = ["serde"] }
sqlx = { version = "=0.7.4", default-features = false, features = ["runtime-tokio", "postgres", "uuid", "chrono"] }
uuid = { version = "=1.29.1", features = ["v4"] }
chrono = { version = "=0.4.45", default-features = false, features = ["clock"] }
reqwest = { version = "0.12", default-features = false, features = ["json"] }
