[package]
name = "upower"
version = "0.1.0"
edition = "2021"
publish = false

[dependencies]
zbus = { version = "4", default-features = false, features = ["tokio"] }
tokio = { version = "1", features = ["macros", "rt", "sync"] }
futures-util = "0.3"
serde = { version = "1", features = ["derive"] }
serde_repr = "0.1"
strum = "0.26"
strum_macros = "0.26"
tracing = "0.1"
smallvec = "1"
enumflags2 = "0.7"
