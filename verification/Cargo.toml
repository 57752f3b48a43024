[package]
name = "seeder"
version = "0.1.0"
edition = "2021"
publish = false

[dependencies]
chrono = "0.4"
urlencoding = "2"
regex = "1"
rust-ini = "*"
confy = "*"
hostname = "0.3"
log = "0.4"
env_logger = "*"
ureq = { version = "2", features = ["json"] }
serde = { version = "1", features = ["derive"] }
serde_derive = "1"
winapi = { version = "0.3", features = ["winuser", "windef"] }
winproc = "*"
registry = "*"
directories = "*"
system_shutdown = "*"
