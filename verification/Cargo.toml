[package]
name = "branch_picker"
version = "0.1.0"
edition = "2021"
publish = false

[dependencies]
anyhow = "1"
clap = { version = "3", features = ["derive"] }
crossterm = "0.25"
git2 = "0.15"
tui = "0.19"
