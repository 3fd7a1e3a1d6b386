[package]
name = "mmvj"
version = "0.1.0"
edition = "2021"
publish = false

[dependencies]
anyhow = "1"
atomic_float = "1"
chrono = { version = "0.4", features = ["serde"] }
clap = { version = "4", default-features = false, features = ["derive", "std", "help", "usage", "error-context"] }
colored = "*"
env_logger = { version = "*", default-features = false }
evdev = { version = "0.13", features = ["tokio"] }
log = "0.4"
midir = "*"
nix = { version = "*", features = ["user"] }
notify-debouncer-full = "*"
regex = "1"
serde = { version = "1", features = ["derive"] }
serde_regex = "1"
serde_yaml = "0.9"
tokio = { version = "1", features = ["full"] }
tokio-util = "0.7"
yaml-merge-keys = { version = "*", features = ["serde_yaml"] }

[dev-dependencies]
heck = "*"
