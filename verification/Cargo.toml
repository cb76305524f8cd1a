[package]
name = "ww_bear"
version = "0.1.0"
edition = "2021"
publish = false

[dependencies]
bitflags = "2"
derive_more = { version = "2", features = ["display", "error", "from"] }
log = "0.4"
paste = "1"
serial2 = "0.2"
serial2-tokio = "0.1"
tokio = { version = "1", features = ["time"] }
