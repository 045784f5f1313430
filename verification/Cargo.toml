[package]
name = "sc2_exp"
version = "0.1.0"
edition = "2021"
publish = false

[dependencies]
chrono = "0.4"
clap = { version = "4", features = ["derive"] }
csv = "1"
env_logger = "*"
indicatif = "*"
log = "0.4"
nix = { version = "*", features = ["user"] }
plotters = { version = "0.3", default-features = false, features = ["svg_backend", "line_series"] }
serde = { version = "1", features = ["derive"] }
serde_json = "1"
