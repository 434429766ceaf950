[package]
name = "collator_monitor"
version = "0.1.0"
edition = "2021"
publish = false

[dependencies]
subxt = { version = "0.44", default-features = false, features = ["jsonrpsee", "native"] }
subxt-signer = { version = "0.44", default-features = false, features = ["sr25519", "subxt", "std"] }
bip39 = { version = "2", default-features = false, features = ["std"] }
hex = "0.4"
anyhow = "1"
clap = { version = "4", default-features = false, features = ["std", "help", "usage", "derive"] }
config = { version = "0.15", default-features = false, features = ["toml"] }
dotenvy = "0.15"
reqwest = { version = "0.12", default-features = false, features = ["json", "rustls-tls-native-roots-no-provider"] }
serde = { version = "1", features = ["derive"] }
thiserror = "2"
tokio = { version = "1", default-features = false, features = ["macros", "rt-multi-thread", "sync", "time"] }
tracing = "0.1"
tracing-subscriber = { version = "0.3", default-features = false, features = ["env-filter", "fmt"] }
