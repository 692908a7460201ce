[package]
name = "gopls_locator"
version = "0.1.0"
edition = "2021"
publish = false

[dependencies]
lapce-plugin = "=0.1.2"
lsp-types = "0.93"
serde_json = "=1.0.151"
semver = "=1.0.28"
url = "=2.5.8"
anyhow = "=1.0.104"
thiserror = "=1.0.69"
