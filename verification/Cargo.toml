[package]
name = "crankshaft"
version = "0.1.0"
edition = "2021"
publish = false

[dependencies]
async-trait = "0.1"
bollard = "0.17"
config = { version = "0.14", default-features = false, features = ["toml"] }
dirs = "5"
futures = "0.3"
indexmap = "2"
indicatif = "0.17"
nonempty = "0.10"
random_word = { version = "0.4", features = ["en"] }
regex = "1"
reqwest = { version = "0.12", default-features = false, features = ["json", "rustls-tls"] }
reqwest-middleware = "0.3"
reqwest-retry = "0.6"
serde = { version = "1", features = ["derive"] }
serde_json = "1"
tar = "0.4"
tempfile = "3"
tokio = { version = "1", features = ["fs", "io-util", "macros", "process", "rt-multi-thread", "sync", "time"] }
tracing = "0.1"
url = "2"
