[package]
name = "parking"
version = "0.1.0"
edition = "2021"
publish = false

[dependencies]
bcrypt = "=0.19.3"
chrono = { version = "=0.4.45", features = ["serde"] }
postgres = { version = "=0.19.14", features = ["with-chrono-0_4"] }
rocket = "0.5"
rocket_dyn_templates = { version = "0.2", features = ["handlebars"] }
serde = { version = "=1.0.229", features = ["derive"] }
serde_json = "=1.0.154"
lazy_static = "=1.5.1"
