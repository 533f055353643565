[package]
name = "pdf_inbox"
version = "0.1.0"
edition = "2021"
publish = false

[dependencies]
anyhow = "1"
log = "0.4"
tui = "0.19"
crossterm = "0.25"
tokio = { version = "1", features = ["macros", "rt-multi-thread", "time"] }
