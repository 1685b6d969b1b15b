[package]
name = "realworld_axum_sqlx"
version = "0.1.0"
edition = "2021"
publish = false

[dependencies]
anyhow = "1"
argon2 = "0.5"
async-trait = "0.1"
axum = "0.7"
clap = { version = "4", features = ["derive", "env"] }
futures = "0.3"
hmac = "0.12"
itertools = "0.12"
jwt = "0.16"
log = "0.4"
rand = "0.8"
serde = { version = "1", features = ["derive"] }
serde_json = { version = "1", features = ["preserve_order"] }
sha2 = "0.10"
sqlx = { version = "0.7", default-features = false, features = ["runtime-tokio", "postgres", "uuid", "time"] }
time = { version = "0.3", features = ["formatting", "parsing"] }
tokio = { version = "1", features = ["rt-multi-thread", "macros", "net"] }
tower-http = { version = "0.5", features = ["trace"] }
uuid = { version = "1", features = ["serde"] }
