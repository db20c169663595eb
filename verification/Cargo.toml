[package]
name = "messiah_assets"
version = "0.1.0"
edition = "2021"
publish = false

[dependencies]
anyhow = "1"
byteorder = "1"
clap = { version = "4", features = ["derive"] }
compress = "0.2"
indicatif = "0.17"
log = "0.4"
lz4_flex = "0.11"
lzma-rs = "0.3"
simple_logger = "*"
thiserror = "1"
tracing = "0.1"
tracing-subscriber = { version = "0.3", features = ["env-filter"] }
tree_magic_mini = "3"
walkdir = "2"
