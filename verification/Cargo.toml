[package]
name = "pixi_gui"
version = "0.1.0"
edition = "2021"
publish = false

[dependencies]
clap = { version = "4", features = ["derive"] }
dunce = "1"
indexmap = { version = "2", features = ["serde"] }
log = "0.4"
miette = "7"
percent-encoding = "2"
serde = { version = "1", features = ["derive"] }
serde_json = "1"
tokio = { version = "1", features = ["rt", "sync"] }
uuid = { version = "1", features = ["v4"] }
which = "*"
