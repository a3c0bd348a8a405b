[package]
name = "mycelium"
version = "0.1.0"
edition = "2021"
publish = false

[dependencies]
base64 = "=0.23.1"
sha2 = "=0.11.0"
chrono = "=0.4.45"
serde = { version = "*", features = ["derive"] }
serde_json = "*"
kube = { version = "=3.1.0", features = ["runtime", "derive"] }
k8s-openapi = { version = "=0.27.1", features = ["latest", "schemars"] }
schemars = "*"
actix-web = "*"
actix-rt = "*"
tokio = { version = "*", features = ["macros", "rt-multi-thread"] }
futures = "*"
prometheus = "*"
reqwest = { version = "*", features = ["json"] }
tracing = "*"
tracing-subscriber = { version = "*", features = ["env-filter", "json"] }
thiserror = "*"
anyhow = "*"
yaml-rust = "*"
toml_edit = "*"
linked-hash-map = "*"
nix = { version = "*", features = ["signal"] }
signal-hook = "*"
