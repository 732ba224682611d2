[package]
name = "fs_store"
version = "0.1.0"
edition = "2021"
publish = false

[dependencies]
actix-cors = "=0.6.5"
actix-web = "=4.18.1"
actix-web-validator = "=5.0.1"
bigdecimal = { version = "=0.4.11", features = ["serde"] }
chrono = { version = "=0.4.45", features = ["serde"] }
diesel = { version = "=2.3.14", features = ["postgres", "r2d2", "chrono", "numeric"] }
dotenvy = "=0.15.7"
regex = "=1.13.1"
serde = { version = "=1.0.229", features = ["derive"] }
utoipa = { version = "=3.5.0", features = ["actix_extras", "chrono"] }
utoipa-swagger-ui = { version = "=3.1.5", features = ["actix-web"] }
validator = { version = "=0.16.1", features = ["derive"] }
