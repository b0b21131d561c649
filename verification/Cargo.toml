[package]
name = "pgx_contrib_spiext"
version = "0.1.0"
edition = "2021"
publish = false

[dependencies]
pgx = { version = "0.7", features = ["pg15"] }
thiserror = "1.0"
