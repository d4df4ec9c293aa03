[package]
name = "lb_importer"
version = "0.1.0"
edition = "2021"
publish = false

[dependencies]
anyhow = "*"
clap = { version = "*", features = ["derive", "env"] }
listenbrainz = "*"
serde = { version = "*", features = ["derive"] }
serde_json = "*"
serde_with = "*"
time = { version = "*", features = ["formatting", "parsing", "local-offset", "macros"] }
uuid = "*"
wild = "*"
