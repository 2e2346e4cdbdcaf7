[package]
name = "transactions_pipeline"
version = "0.1.0"
edition = "2021"
publish = false

[dependencies]
rand = "0.8"
serde = { version = "1", features = ["derive"] }
serde_json = "1"
tokio = { version = "1", features = ["full"] }
config = "*"
couchbase = "1.0.0-alpha.5"
rdkafka = "*"
actix-web = "4"
futures = "0.3"
tracing = "0.1"
tracing-actix-web = "*"
tracing-bunyan-formatter = "*"
tracing-log = "*"
tracing-subscriber = { version = "0.3", features = ["env-filter"] }
