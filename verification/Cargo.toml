[package]
name = "mdnotes"
version = "0.1.0"
edition = "2021"
publish = false

[dependencies]
urlencoding = "=2.1.3"
mime_guess = "=2.0.5"
gitignore = "=1.0.8"
dashmap = "=6.2.1"
tokio = { version = "=1.53.2", features = ["rt-multi-thread", "sync", "fs", "io-util", "time", "net"] }
warp = "=0.3.7"
notify = "=4.0.18"
futures = "=0.3.34"
bytes = "=1.12.1"
headers = "=0.3.9"
log = "=0.4.34"
env_logger = "=0.11.11"
dirs = "=7.0.0"
mdbook = { version = "=0.4.52", default-features = false }
