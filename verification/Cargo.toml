[package]
name = "repo_url_picker"
version = "0.1.0"
edition = "2021"
publish = false

[dependencies]
clap = "=4.6.7"
ctrlc = "=3.5.2"
libc = "0.2"
octocrab = "=0.40.0"
reqwest = { version = "=0.12.28", features = ["json"] }
serde = { version = "=1.0.229", features = ["derive"] }
serde_json = "=1.0.154"
termion = "=4.0.6"
tokio = { version = "=1.54.1", features = ["full"] }
