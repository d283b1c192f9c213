[package]
name = "deployment_tracer"
version = "0.1.0"
edition = "2021"
publish = false

[dependencies]
alloy = { version = "*", default-features = false, features = ["std", "providers", "provider-http", "provider-debug-api", "reqwest", "rpc-types", "rpc-types-trace"] }
clap = { version = "4", default-features = false, features = ["std", "derive", "env", "help", "usage", "error-context"] }
eyre = "0.6"
tokio = { version = "1", features = ["macros", "rt-multi-thread"] }
