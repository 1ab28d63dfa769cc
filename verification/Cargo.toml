[package]
name = "guildbot"
version = "0.1.0"
edition = "2021"
publish = false

[dependencies]
anyhow = "1"
poise = "0.6"
rand = "0.9"
shuttle-runtime = "*"
shuttle-serenity = "*"
