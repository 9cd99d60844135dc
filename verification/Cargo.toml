[package]
name = "library_system"
version = "0.1.0"
edition = "2021"
publish = false

[dependencies]
uuid = { version = "=1.29.0", features = ["v4", "serde"] }
chrono = { version = "=0.4.45", default-features = false, features = ["clock", "serde"] }
serde = { version = "=1.0.229", features = ["derive"] }
serde_json = "=1.0.154"
thiserror = "=1.0.69"
anyhow = "=1.0.104"
async-trait = "=0.1.92"
axum = "=0.7.9"
tokio = { version = "=1.54.1", features = ["macros", "rt-multi-thread", "net"] }
reqwest = { version = "=0.12.28", default-features = false, features = ["json"] }
diesel = { version = "=2.3.14", features = ["postgres", "chrono", "uuid"] }
deadpool-diesel = { version = "=0.6.1", features = ["postgres"] }
dotenvy = "=0.15.7"
tracing = "=0.1.44"
tracing-subscriber = { version = "=0.3.23", features = ["env-filter"] }
utoipa = { version = "=5.5.0", features = ["axum_extras", "uuid", "chrono"] }
utoipa-axum = "=0.1.3"
utoipa-swagger-ui = { version = "=8.1.0", features = ["axum", "vendored"] }
zip = { version = "=2.2.2", default-features = false, features = ["deflate"] }
