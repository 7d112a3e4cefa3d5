[package]
name = "royalnet"
version = "0.1.0"
edition = "2021"
publish = false

[dependencies]
regex = "=1.13.1"
rand = { version = "=0.8.8", features = ["small_rng"] }
chrono = "=0.4.45"
parse_datetime = "=0.6.0"
reqwest = { version = "=0.12.28", default-features = false, features = ["json", "rustls-tls"] }
teloxide = { version = "=0.13.0", default-features = false, features = ["macros", "rustls", "ctrlc_handler"] }
takecell = "=0.1.1"
tokio = { version = "=1.54.1", features = ["full"] }
serde = { version = "=1.0.229", features = ["derive"] }
anyhow = "=1.0.104"
thiserror = "=1.0.69"
log = "=0.4.35"
pretty_env_logger = "=0.5.0"
diesel = { version = "=2.3.14", features = ["postgres", "chrono"] }
diesel_migrations = "=2.3.2"
micronfig = "=0.3.0"
once_cell = "=1.21.4"
graphql_client = "=0.14.0"
