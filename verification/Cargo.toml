[package]
name = "load_data"
version = "0.1.0"
edition = "2021"
publish = false

[dependencies]
bytes = "=1.12.1"
flate2 = "1"
futures-core = "=0.3.34"
futures-util = "=0.3.34"
mysql_common = { version = "=0.38.2", default-features = false }
tokio = { version = "=1.53.2", features = ["sync"] }
