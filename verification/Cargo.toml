[package]
name = "doup"
version = "0.1.0"
edition = "2021"
publish = false

[dependencies]
uuid = "1"
chrono = "0.4"
infer = "*"
serde = { version = "1", features = ["derive"] }
serde_json = "1"
log = "0.4"
dotenvy = "0.15"
tokio = { version = "1", features = ["fs", "io-util", "macros", "rt-multi-thread"] }
actix-web = "4"
actix-multipart = "*"
actix-web-static-files = "4"
askama = "*"
diesel = { version = "2", default-features = false, features = ["postgres_backend", "uuid"] }
diesel-async = { version = "*", features = ["postgres", "bb8", "async-connection-wrapper"] }
diesel_migrations = "2"
