[package]
name = "attestation_indexer"
version = "0.1.0"
edition = "2021"
publish = false

[dependencies]
hex = "0.4"
bit-vec = "0.6"
anyhow = "1"
async-trait = "0.1"
futures-core = "0.3"
futures-util = "0.3"
log = "0.4"
env_logger = "*"
envconfig = "*"
dotenv = "0.15"
url = "2"
serde = { version = "1", features = ["derive"] }
serde_json = "1"
tokio = { version = "1", features = ["rt-multi-thread", "macros", "sync"] }
reqwest = { version = "0.11", default-features = false, features = ["json", "stream"] }
tokio-postgres = "0.7"
postgres-types = "0.2"
deadpool-postgres = "*"
rust_decimal = { version = "1", features = ["db-tokio-postgres"] }
actix-web = { version = "4", default-features = false, features = ["macros"] }
async-graphql = "*"
async-graphql-actix-web = "*"
