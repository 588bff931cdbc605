[package]
name = "futures_from_scratch"
version = "0.1.0"
edition = "2021"
publish = false

[dependencies]
clap = { version = "3.2", features = ["derive"] }
fern = "0.6"
log = "0.4"
mio = { version = "0.8", features = ["os-poll", "net"] }
once_cell = "1"
polling = "2"
rand = "0.8"
