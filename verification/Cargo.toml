[package]
name = "veloren_relay"
version = "0.1.0"
edition = "2021"
publish = false

[dependencies]
chrono = { version = "0.4", features = ["serde"] }
futures = "0.3"
kankyo = "0.3"
rocket = { version = "0.5", features = ["json"] }
rocket_db_pools = { version = "0.2", features = ["sqlx_sqlite"] }
rocket_dyn_templates = { version = "0.2", features = ["handlebars"] }
serde = { version = "1", features = ["derive"] }
sqlx = { version = "0.7", features = ["sqlite", "chrono", "uuid"] }
tokio = { version = "1", features = ["sync", "rt", "rt-multi-thread", "time"] }
uuid = "1"
