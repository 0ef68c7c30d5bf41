[package]
name = "brainlog"
version = "0.1.0"
edition = "2021"
publish = false

[dependencies]
uuid = { version = "1", features = ["serde"] }
rocket = { version = "0.5", features = ["json"] }
diesel = { version = "2", features = ["postgres", "uuid"] }
rocket_sync_db_pools = { version = "0.1", features = ["diesel_postgres_pool"] }
