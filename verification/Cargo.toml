[package]
name = "youtrack"
version = "0.1.0"
edition = "2021"
publish = false

[dependencies]
chrono = { version = "0.4", default-features = false, features = ["std"] }
log = { version = "0.4", features = ["kv"] }
mlua = { version = "0.9", features = ["luajit", "module", "async", "serialize", "macros"] }
once_cell = "1"
reqwest = { version = "0.12", features = ["json"] }
serde = { version = "1", features = ["derive"] }
serde_json = "1"
structured-logger = "1"
tokio = { version = "1", features = ["rt-multi-thread"] }
url = "2"
validator = { version = "0.18", features = ["derive"] }
