[package]
name = "greener_admin"
version = "0.1.0"
edition = "2021"
publish = false

[dependencies]
async-trait = "0.1"
chrono = "0.4"
clap = { version = "4", features = ["derive"] }
pbkdf2 = "0.12"
rand = "0.8"
sea-orm = { version = "1", default-features = false, features = ["macros", "with-chrono", "with-uuid", "with-json", "runtime-tokio-rustls", "sqlx-postgres", "sqlx-mysql", "sqlx-sqlite"] }
sea-orm-migration = { version = "1", default-features = false, features = ["runtime-tokio-rustls", "sqlx-postgres", "sqlx-mysql", "sqlx-sqlite"] }
sha2 = "0.10"
tokio = { version = "1", features = ["macros", "rt-multi-thread"] }
uuid = { version = "1", features = ["v4"] }
