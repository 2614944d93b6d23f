[package]
name = "pin_dependencies"
version = "0.1.0"
edition = "2021"
publish = false

[dependencies]
anyhow = "*"
clap = { version = "*", features = ["derive"] }
clap-verbosity-flag = "*"
comfy-table = "*"
console = "*"
detect-indent = "*"
indicatif = "*"
log = "*"
semver = "*"
serde = { version = "*", features = ["derive"] }
serde_json = "*"
serde_yml = "*"
tracing = "*"
tracing-log = "*"
tracing-subscriber = "*"
