[package]
name = "pmmp_installer"
version = "0.1.0"
edition = "2021"
publish = false

[dependencies]
archiver-rs = "0.5"
clap = "2"
futures = "0.3"
indicatif = "0.15"
reqwest = { version = "0.11", default-features = false, features = ["rustls-tls"] }
tokio = { version = "1", features = ["rt-multi-thread", "macros", "fs", "process", "io-util"] }
