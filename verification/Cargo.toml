[package]
name = "machine-rs"
version = "0.1.0"
edition = "2021"
publish = false

[dependencies]
aws-manager = { version = "=0.30.4", default-features = false, features = ["autoscaling", "cloudformation", "kms", "s3", "ssm", "sts"] }
aws-sdk-cloudformation = "=0.30.0"
clap = { version = "=4.6.7", features = ["cargo"] }
compress-manager = "=0.0.10"
crossterm = "=0.29.0"
dialoguer = "=0.12.0"
env_logger = { version = "=0.11.11", default-features = false }
id-manager = "=0.0.3"
log = "=0.4.34"
public-ip = "=0.2.2"
random-manager = "=0.0.5"
rust-embed = "=8.0.0"
serde = { version = "=1.0.229", features = ["derive"] }
serde_yaml = "=0.9.34"
ssh-scp-manager = "=0.0.5"
tokio = { version = "=1.54.1", features = ["macros", "rt-multi-thread", "time"] }
