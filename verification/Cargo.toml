[package]
name = "datafile"
version = "0.1.0"
edition = "2021"
publish = false

[dependencies]
toml = "=1.1.6"
serde_json = "=1.0.151"
json5 = "=1.3.1"
xdg = "=3.0.0"
serde = { version = "=1.0.229", features = ["derive"] }
log = "=0.4.34"
anyhow = "=1.0.104"
thiserror = "=2.0.21"
facet-kdl = "=0.42.0"
facet = "=0.42.0"
