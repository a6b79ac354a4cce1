[package]
name = "sompcoc"
version = "0.1.0"
edition = "2021"
publish = false

[dependencies]
num-bigint = { version = "0.4", features = ["serde"] }
num-format = { version = "0.4", features = ["with-num-bigint"] }
num-traits = "0.2"
rand = "0.9"
serde = { version = "1", features = ["derive"] }
serde_urlencoded = "0.7"
kv = { version = "0.24", features = ["msgpack-value"] }
poise = "0.6"
tokio = { version = "1", features = ["macros", "rt-multi-thread"] }
dotenvy = "0.15"
pretty_env_logger = "0.5"
