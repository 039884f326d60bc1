[package]
name = "authgate"
version = "0.1.0"
edition = "2021"
publish = false

[dependencies]
actix-session = { version = "*", features = ["cookie-session"] }
actix-web = { version = "*", features = ["openssl"] }
anyhow = "*"
clap = { version = "*", features = ["derive"] }
openssl = "*"
serde = { version = "*", features = ["derive"] }
sqlx = { version = "*", features = ["postgres", "runtime-tokio"] }
toml = "*"
uuid = { version = "*", features = ["serde"] }
