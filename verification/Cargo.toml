[package]
name = "gas_cost"
version = "0.1.0"
edition = "2021"
publish = false

[dependencies]
alloy = { version = "=1.8.3", default-features = false, features = ["std", "provider-http", "reqwest", "rpc-types", "sol-types", "json"] }
anyhow = "=1.0.104"
async-trait = "=0.1.92"
clap = { version = "=4.6.7", default-features = false, features = ["std", "derive", "help", "usage", "error-context"] }
colored = "=3.1.1"
num-format = "=0.4.4"
tokio = { version = "=1.54.1", features = ["macros", "rt-multi-thread"] }
