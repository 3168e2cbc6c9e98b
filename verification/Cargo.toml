[package]
name = "kawoof"
version = "0.1.0"
edition = "2021"
publish = false

[dependencies]
pwhash = "=1.0.0"
cookie = "=0.18.2"
serde = { version = "=1.0.229", features = ["derive"] }
rocket = { version = "=0.5.2", features = ["json"] }
rocket_dyn_templates = { version = "=0.2.0", features = ["tera"] }
rocket-jwt-new = "=0.6.0"
jsonwebtoken = "=8.3.0"
sqlx = { version = "=0.8.6", default-features = false, features = ["sqlite", "runtime-tokio", "derive"] }
