[package]
name = "rtf2text"
version = "0.1.0"
edition = "2021"
publish = false

[dependencies]
anyhow = "=1.0.104"
clap = { version = "=3.2.25", features = ["cargo"] }
codepage = "=0.1.3"
encoding_rs = "=0.8.42"
flexi_logger = "=0.31.10"
log = "=0.4.34"
rtf-grimoire = "=0.1.1"

[dev-dependencies]
nom = "=4.2.3"
