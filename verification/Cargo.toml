[package]
name = "shapes_demo"
version = "0.1.0"
edition = "2021"
publish = false

[dependencies]
rand = "0.8"
clap = "2"
ctrlc = "3"
log = "0.4"
log4rs = "1"
mio = "0.6"
mio-extras = "2"
rustdds = "0.4"
serde = { version = "1", features = ["derive"] }
