[package]
name = "datasplitter"
version = "0.1.0"
edition = "2021"
publish = false

[dependencies]
actix-rt = "*"
actix-web = { version = "*", default-features = false }
futures = "*"
reqwest = { version = "*", default-features = false }
structopt = "*"
