[package]
name = "bytecode_scanner"
version = "0.1.0"
edition = "2021"
publish = false

[dependencies]
revm-bytecode = "=5.0.0"
rand = "=0.9.5"
rand_xoshiro = "=0.7.0"
sled = "=0.34.7"
sqlx = { version = "=0.8.6", default-features = false, features = ["sqlite", "runtime-tokio"] }
tokio = { version = "1", features = ["rt-multi-thread", "macros", "signal", "sync"] }
eyre = "0.6"
clap = { version = "4", features = ["derive", "env"] }
dotenvy = "0.15"
url = "2"
csv = "1"
serde = { version = "1", features = ["derive"] }
rayon = "1"
indicatif = "0.17"
