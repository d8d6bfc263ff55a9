[package]
name = "learn_htmx"
version = "0.1.0"
edition = "2021"
publish = false

[dependencies]
argon2 = "=0.5.3"
axum = "=0.6.20"
axum-flash = "=0.7.0"
axum-htmx = "=0.4.0"
axum-login = { version = "=0.6.0", features = ["sqlx", "mysql"] }
email_address = "=0.2.9"
futures-util = "0.3"
log = "0.4"
maud = { version = "=0.25.0", features = ["axum"] }
serde = { version = "1", features = ["derive"] }
sqlx = { version = "0.6", features = ["mysql", "runtime-tokio-rustls"] }
terminal-link = "=0.1.0"
tokio = { version = "1", features = ["macros", "rt-multi-thread"] }
