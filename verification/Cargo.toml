[package]
name = "hindsight_explorer"
version = "0.1.0"
edition = "2021"
publish = false

[dependencies]
anyhow = "1"
colored = "2"
crossterm = "0.28"
indicatif = "0.17"
ratatui = "0.29"
serde_json = "1"
