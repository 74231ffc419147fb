[package]
name = "groovebox"
version = "0.1.0"
edition = "2021"
publish = false

[dependencies]
anyhow = "1"
chrono = { version = "0.4", default-features = false, features = ["clock", "std"] }
crossterm = "0.28"
dirs = "6"
image = { version = "0.25", default-features = false, features = ["jpeg", "png"] }
ratatui = "0.29"
ratatui-image = { version = "8", default-features = false, features = ["crossterm"] }
reqwest = { version = "0.12", default-features = false, features = ["rustls-tls"] }
rusqlite = { version = "0.37", features = ["bundled"] }
rustfft = "6"
serde = { version = "1", features = ["derive"] }
serde_json = "1"
tokio = { version = "1", features = ["rt-multi-thread", "macros", "process", "net", "io-util", "time", "sync"] }
