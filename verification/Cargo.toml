[package]
name = "irclap"
version = "0.1.0"
edition = "2021"
publish = false

[dependencies]
clap = "2"
futures = "0.1"
irc = "0.13"
tokio-core = "0.1"
