[package]
name = "prometrics_exporter"
version = "0.1.0"
edition = "2021"
publish = false

[dependencies]
log = "=0.4.34"
prometrics = "=0.1.13"
rouille = { version = "=3.6.2", default-features = false }

[dev-dependencies]
threadpool = "=1.8.1"
