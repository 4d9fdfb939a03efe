[package]
name = "sonos_manager"
version = "0.1.0"
edition = "2021"
publish = false

[dependencies]
fastrand = "=2.5.0"
futures-util = "=0.3.34"
log = "=0.4.34"
roxmltree = "=0.18.1"
rupnp = "=2.0.0"
sonor = "=2.0.0"
thiserror = "=1.0.69"
tokio = { version = "=1.54.1", features = ["macros", "rt", "sync", "time"] }
tokio-stream = { version = "=0.1.19", features = ["sync"] }
urlencoding = "=2.1.3"
