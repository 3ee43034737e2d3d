[package]
name = "hangar"
version = "0.1.0"
edition = "2021"
publish = false

[dependencies]
clap = { version = "4", features = ["derive"] }
serde = "1"
time = { version = "0.3", features = ["formatting", "parsing", "serde"] }

[dev-dependencies]
serde_json = "1"
