[package]
name = "tide_disco"
version = "0.1.0"
edition = "2021"
publish = false

[dependencies]
tagged-base64 = "=0.4.1"
markdown = "=0.3.0"
semver = "=1.0.28"
http-types = "=2.12.0"
hex = "=0.4.3"
toml = "=0.8.23"
serde = { version = "=1.0.229", features = ["derive"] }
serde_json = "=1.0.154"
tide = "=0.16.0"
tide-websockets = "=0.4.0"
async-std = { version = "=1.13.2", features = ["attributes"] }
async-h1 = "=2.3.4"
futures = "=0.3.34"
async-trait = "=0.1.92"
routefinder = "=0.5.4"
dirs = "=5.0.1"
config = { version = "=0.14.1", default-features = false, features = ["toml"] }
clap = { version = "=4.6.7", features = ["derive"] }
tracing = "=0.1.44"
tracing-subscriber = { version = "=0.3.23", features = ["env-filter"] }
prometheus = { version = "=0.13.4", default-features = false }
reqwest = { version = "=0.12.28", default-features = false, features = ["json"] }
vbs = "=0.1.7"
bincode = "=1.3.3"
ark-serialize = "=0.4.2"
signal-hook = "=0.3.18"
signal-hook-async-std = "=0.2.2"
libc = "=0.2.191"
url = "=2.5.8"
