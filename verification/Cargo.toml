[package]
name = "star_randsrv"
version = "0.1.0"
edition = "2021"
publish = false

[dependencies]
axum = "=0.7.9"
base64 = "=0.22.1"
curve25519-dalek = { version = "4", features = ["rand_core"] }
ppoprf = "0.4"
serde = { version = "=1.0.229", features = ["derive"] }
serde_json = "=1.0.154"
time = { version = "=0.3.55", features = ["formatting", "parsing"] }
tokio = { version = "=1.54.1", features = ["macros", "rt-multi-thread", "time", "net", "sync"] }
tracing = "=0.1.44"

[dev-dependencies]
rand = "=0.8.8"
