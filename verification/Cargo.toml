[package]
name = "retls"
version = "0.1.0"
edition = "2021"
publish = false

[dependencies]
rustls = { version = "=0.21.12", features = ["dangerous_configuration"] }
rustls-pemfile = "=1.0.4"
tokio = { version = "=1.53.2", features = ["full"] }
tokio-rustls = "=0.24.1"
structopt = "=0.3.26"
anyhow = "=1.0.104"
log = "=0.4.34"
pretty_env_logger = "=0.5.0"

[dev-dependencies]
rcgen = "=0.11.3"
