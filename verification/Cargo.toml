[package]
name = "mcfly_import"
version = "0.1.0"
edition = "2021"
publish = false

[dependencies]
async-trait = "0.1"
chrono = { version = "0.4", default-features = false, features = ["std"] }
directories = "*"
eyre = "0.6"
sqlx = { version = "*", default-features = false, features = ["sqlite", "chrono", "runtime-tokio", "derive"] }
