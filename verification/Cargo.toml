[package]
name = "mq_docs"
version = "0.1.0"
edition = "2021"
publish = false

[dependencies]
mq-hir = "*"
mq-lang = "*"
itertools = "*"
url = "2"
miette = "7"
clap = { version = "4", features = ["derive"] }
ratatui = "*"
crossterm = "*"
