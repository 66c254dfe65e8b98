[package]
name = "directwrite"
version = "0.1.0"
edition = "2021"
publish = false

[dependencies]
dwrote = "0.11"
winapi = { version = "0.3", features = ["dwrite", "dwrite_1", "dwrite_2", "impl-default", "ntdef", "unknwnbase", "winerror", "winnls"] }
