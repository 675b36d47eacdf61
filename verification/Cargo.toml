[package]
name = "oidc_broker"
version = "0.1.0"
edition = "2021"
publish = false

[dependencies]
axum = { version = "0.7", default-features = false, features = ["form", "json", "query"] }
base64 = "0.21"
chrono = { version = "0.4", default-features = false, features = ["std"] }
ciborium = "0.2"
clap = { version = "4", features = ["derive"] }
console_error_panic_hook = "0.1"
getrandom = "0.2"
itertools = "0.12"
openidconnect = { version = "3", default-features = false, features = ["reqwest"] }
reqwest = { version = "0.11", default-features = false, features = ["json"] }
serde = { version = "1", features = ["derive"] }
serde_json = "1"
serde_urlencoded = "0.7"
surrealdb-jsonwebtoken = "8.3.0-surreal.1"
thiserror = "1"
tower-service = "0.3"
url = { version = "2", features = ["serde"] }
worker = { version = "0.4", features = ["http", "axum"] }
