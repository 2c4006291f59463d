[package]
name = "agent_dispatch"
version = "0.1.0"
edition = "2021"
publish = false

[dependencies]
config = "=0.15.27"
rig-core = { version = "=0.44.0", features = ["reqwest"] }
serde = { version = "*", features = ["derive"] }
tokio = { version = "*", features = ["macros", "rt-multi-thread"] }
futures = "*"
anyhow = "*"
