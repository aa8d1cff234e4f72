[package]
name = "cpc_gpio_bridge"
version = "0.1.0"
edition = "2021"
publish = false

[dependencies]
anyhow = "1"
bincode = "1"
clap = { version = "4", features = ["derive"] }
env_logger = "0.10"
file-lock = "2"
log = "0.4"
mio = { version = "0.8", features = ["os-poll", "os-ext"] }
mio-signals = "0.2"
neli = "0.6"
nom = "7"
thiserror = "1"
