[package]
name = "rusty_hunter"
version = "0.1.0"
edition = "2021"
publish = false

[dependencies]
anyhow = "*"
euclid = "*"
prost = "*"
schematic = "*"
serde = { version = "*", features = ["derive"] }
thiserror = "*"
tokio = { version = "*", features = ["macros", "rt-multi-thread", "signal"] }
tracing = "*"
tracing-subscriber = { version = "*", features = ["json"] }
zeromq = "*"
