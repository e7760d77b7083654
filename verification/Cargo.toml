[package]
name = "migration_schema"
version = "0.1.0"
edition = "2021"
publish = false

[dependencies]
sea-orm = { version = "=1.1.20", default-features = false }
sea-orm-migration = { version = "=1.1.20", default-features = false }
sea-query = { version = "=0.32.7", default-features = false }

[dev-dependencies]
sea-orm = { version = "=1.1.20", default-features = false, features = ["sqlx-sqlite", "runtime-tokio"] }
sea-orm-migration = { version = "=1.1.20", default-features = false, features = ["sqlx-sqlite", "runtime-tokio"] }
tokio = { version = "1", features = ["rt"] }
