[package]
name = "p2p_game_engine"
version = "0.1.0"
edition = "2021"
publish = false

[dependencies]
anyhow = "1"
bytes = "1"
iroh = { version = "*", default-features = false }
n0-future = "*"
postcard = { version = "1", default-features = false, features = ["use-std"] }
rand = "0.9"
serde = { version = "1", features = ["derive"] }
thiserror = "2"
tokio = { version = "1", features = ["fs", "macros", "rt", "sync", "time"] }
