[package]
name = "ext_elasticsearch_operator"
version = "0.1.0"
edition = "2021"
publish = false

[dependencies]
anyhow = "1"
base64 = "0.21"
fern = "0.6"
futures-util = "0.3"
humantime = "2"
k8s-openapi = { version = "0.20", features = ["v1_26"] }
kube = { version = "0.87", default-features = false, features = ["client", "rustls-tls", "runtime", "derive"] }
kube-derive = "0.87"
log = "0.4"
passwords = "3"
reqwest = { version = "0.11", default-features = false, features = ["json", "rustls-tls"] }
schemars = "0.8"
serde = { version = "1", features = ["derive"] }
serde_json = "1"
thiserror = "1"
tokio = { version = "1", features = ["macros", "rt-multi-thread"] }
