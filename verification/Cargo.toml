[package]
name = "dhara_tool"
version = "0.1.0"
edition = "2021"
publish = false

[dependencies]
xmltree = { version = "=0.12.0", features = ["attribute-sorted"] }
semver = "=1.0.28"
unicode-width = "=0.2.3"
toml_edit = "=0.25.18"
toml = "=1.1.8"
serde = { version = "=1.0.229", features = ["derive"] }
chrono = "=0.4.45"
anyhow = "=1.0.104"

[dev-dependencies]
tempfile = "=3.27.0"
