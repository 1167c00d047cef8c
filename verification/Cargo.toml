[package]
name = "scrubkit-core"
version = "0.1.0"
edition = "2021"
publish = false

[dependencies]
nom-exif = "2"
png = "0.17"
anyhow = "1"
clap = { version = "4", features = ["derive"] }
thiserror = "1"
tokio = { version = "1", features = ["fs", "macros", "rt-multi-thread"] }
