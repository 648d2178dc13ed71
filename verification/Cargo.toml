[package]
name = "apogee"
version = "0.1.0"
edition = "2021"
publish = false

[dependencies]
enumflags2 = "0.7"
futures = "0.3"
gphoto2 = "3"
serde = { version = "1", features = ["derive"] }
thiserror = "2"
tokio = { version = "1", features = ["sync", "time", "rt-multi-thread", "macros"] }
tracing = "0.1"
tracing-subscriber = { version = "0.3", features = ["env-filter"] }
wgpu = { version = "26", default-features = false }
