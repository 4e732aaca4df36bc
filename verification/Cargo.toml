[package]
name = "resource_versions"
version = "0.1.0"
edition = "2021"
publish = false

[dependencies]
actix-cors = "0.6"
actix-web = { version = "4", default-features = false, features = ["macros"] }
chrono = "0.4"
cnsl = "*"
fern = "0.6"
log = "0.4"
rpassword = "7"
rust-s3 = "0.33"
serde = { version = "1", features = ["derive"] }
thiserror = "1"
toml = "0.8"
