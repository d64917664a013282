[package]
name = "feedwatch"
version = "0.1.0"
edition = "2021"
publish = false

[dependencies]
syndication = "*"
time = { version = "*", features = ["formatting", "parsing"] }
reqwest = { version = "*", default-features = false, features = ["json"] }
tokio = { version = "*", default-features = false, features = ["macros", "rt-multi-thread", "time", "signal"] }
serde = { version = "*", features = ["derive"] }
serde_json = "*"
toml = "*"
secretfile = "*"
main_error = "*"
tracing = "*"
tracing-subscriber = "*"
thiserror = "*"
