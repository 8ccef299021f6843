[package]
name = "cb_common"
version = "0.1.0"
edition = "2021"
publish = false

[dependencies]
alloy = { version = "*", default-features = false, features = ["std", "serde", "rpc-types-beacon"] }
axum = { version = "0.7", default-features = false }
derive_more = { version = "*", features = ["deref", "display", "from", "into"] }
ethereum_serde_utils = "*"
eyre = "0.6"
reqwest = { version = "0.12", default-features = false }
serde = { version = "1", features = ["derive"] }
serde_json = "1"
serde_yaml = "0.9"
sha2 = "0.10"
thiserror = "1"
tree_hash = "*"
url = "2"

[dev-dependencies]
toml = "0.8"
