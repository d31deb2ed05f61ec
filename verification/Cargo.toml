[package]
name = "superposition_service"
version = "0.1.0"
edition = "2021"
publish = false

[dependencies]
actix = { version = "0.13", default-features = false }
actix-web = { version = "4", default-features = false, features = ["macros"] }
anyhow = "1"
chrono = { version = "0.4", features = ["serde"] }
diesel = { version = "2.1", features = ["postgres", "r2d2", "chrono", "serde_json"] }
dotenv = "0.15"
env_logger = "0.10"
jsonschema = { version = "0.17", default-features = false }
log = "0.4"
once_cell = "1"
regex = "1"
reqwest = { version = "0.11", default-features = false, features = ["json"] }
serde = { version = "1", features = ["derive"] }
serde_json = "1"
