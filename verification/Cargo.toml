[package]
name = "mfek_ipc"
version = "0.1.0"
edition = "2021"
publish = false

[dependencies]
ansi_term = "=0.12.1"
atty = "=0.2.14"
chrono = "=0.4.19"
chrono_locale = "=0.1.1"
colored = "=2.2.0"
figlet-rs = "=1.0.0"
glifparser = "=2.0.1"
log = "=0.4.34"
notify = "=8.2.0"
serde_json = "=1.0.154"
