[package]
name = "uoe_ms_auth"
version = "0.1.0"
edition = "2021"
publish = false

[dependencies]
thirtyfour = "*"
tokio = { version = "1", features = ["macros", "rt-multi-thread", "time"] }
rpassword = "7"
tempfile = "3"
serde_json = "1"
pyo3 = "0.23"
