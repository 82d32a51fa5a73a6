[package]
name = "lokoda_backend"
version = "0.1.0"
edition = "2021"
publish = false

[dependencies]
bcrypt = "*"
guid-create = "*"
serde = { version = "1", features = ["derive"] }
serde_json = "1"
actix-web = { version = "4", default-features = false, features = ["macros"] }
actix-session = "*"
sqlx = { version = "*", default-features = false, features = ["mysql", "chrono", "runtime-tokio"] }
futures = "0.3"
log = "0.4"
env_logger = "*"
lettre = "0.9"
lettre_email = "0.9"
native-tls = "0.2"
