[package]
name = "scouting"
version = "0.1.0"
edition = "2021"
publish = false

[dependencies]
uuid = { version = "1", features = ["v4", "serde"] }
serde = { version = "1", features = ["derive"] }
rocket = { version = "0.5.1", features = ["json"] }
rocket_dyn_templates = { version = "0.2", features = ["tera"] }
rocket_db_pools = { version = "0.2", features = ["sqlx_sqlite"] }
sqlx = { version = "0.7", default-features = false, features = ["runtime-tokio", "postgres", "sqlite", "uuid", "chrono"] }
reqwest = { version = "0.12", default-features = false, features = ["json"] }
base64 = "0.22"
