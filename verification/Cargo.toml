[package]
name = "npins"
version = "0.1.0"
edition = "2021"
publish = false

[dependencies]
anyhow = "1"
bpaf = { version = "0.9", features = ["autocomplete"] }
log = "0.4"
nix-compat = "=0.0.0-pre"
serde = { version = "1", features = ["derive"] }
serde_json = "1"
tokio = { version = "1", features = ["process", "rt", "macros"] }
url = "2"
