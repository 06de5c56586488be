[package]
name = "rowlink"
version = "0.1.0"
edition = "2021"
publish = false

[dependencies]
enigo = "=0.6.1"
iced = { version = "=0.14.0", default-features = false, features = ["canvas", "tokio"] }
iced_layershell = { version = "=0.19.1", default-features = false }
tokio = { version = "=1.53.2", default-features = false, features = ["signal"] }
