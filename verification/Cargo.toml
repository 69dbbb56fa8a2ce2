[package]
name = "p2p"
version = "0.1.0"
edition = "2021"
publish = false

[dependencies]
clap = { version = "4", features = ["derive"] }
gethostname = "0.4"
hyper = { version = "0.14", features = ["server", "http1", "tcp"] }
libp2p = { version = "*", default-features = false, features = ["floodsub", "macros", "mdns", "noise", "tcp", "tokio", "yamux"] }
log = "0.4"
pretty_env_logger = "0.5"
serde = { version = "1", features = ["derive"] }
serde_json = "1"
tokio = { version = "1", features = ["full"] }
