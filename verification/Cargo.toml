[package]
name = "gitlab_clone_all"
version = "0.1.0"
edition = "2021"
publish = false

[dependencies]
anyhow = "*"
bytesize = "*"
clap = { version = "*", features = ["derive"] }
console = "*"
dirs = "*"
env_logger = "*"
git2 = { version = "*", default-features = false }
log = "*"
reqwest = { version = "*", default-features = false }
serde = { version = "*", features = ["derive"] }
serde_json = "*"
tokio = { version = "*", features = ["macros", "rt-multi-thread", "sync", "time"] }
