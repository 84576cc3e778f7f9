[package]
name = "retainer"
version = "0.1.0"
edition = "2021"
publish = false

[dependencies]
anyhow = "1"
async-trait = "0.1"
chrono = "0.4"
dotenv = "0.15"
log = "0.4"
poise = "0.6"
sea-orm = { version = "1", default-features = false, features = ["sqlx-postgres", "runtime-tokio-rustls", "macros", "with-chrono"] }
sea-orm-migration = { version = "1", default-features = false, features = ["sqlx-postgres", "runtime-tokio-rustls"] }
serenity = "0.12"
tokio = { version = "1", features = ["macros", "rt-multi-thread"] }
tokio-cron-scheduler = "*"
tracing = "0.1"
tracing-subscriber = { version = "0.3", features = ["env-filter"] }
