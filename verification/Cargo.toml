[package]
name = "orion-bot"
version = "0.1.0"
edition = "2021"
publish = false

[dependencies]
anyhow = "=1.0.104"
async-trait = "=0.1.92"
axum = "=0.8.9"
dotenvy = "=0.15.7"
envy = "=0.4.2"
mimalloc = "=0.1.52"
moka = { version = "=0.12.16", features = ["sync"] }
num_enum = "=0.7.6"
regex = "=1.13.1"
reqwest = { version = "=0.12.28", default-features = false, features = ["json", "rustls-tls"] }
rig-core = "=0.40.0"
rust_intl = "=0.2.2"
rustls = { version = "=0.23.46", default-features = false, features = ["ring", "std"] }
serde = { version = "=1.0.229", features = ["derive"] }
serde_json = "=1.0.154"
serde_repr = "=0.1.21"
thiserror = "=2.0.21"
tokio = { version = "=1.54.1", features = ["full"] }
tower_governor = "=0.8.0"
tracing = "=0.1.44"
tracing-appender = "=0.2.5"
tracing-subscriber = { version = "=0.3.23", features = ["env-filter"] }
twilight-cache-inmemory = { version = "=0.17.1", features = ["permission-calculator"] }
twilight-gateway = "=0.17.1"
twilight-http = "=0.17.1"
twilight-model = "=0.17.1"
twilight-util = { version = "=0.17.0", features = ["builder", "snowflake"] }
utoipa = "=5.5.0"
utoipauto = "=0.2.0"
