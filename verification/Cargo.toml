[package]
name = "transfert"
version = "0.1.0"
edition = "2021"
publish = false

[dependencies]
md5 = "=0.7.0"
human_bytes = "=0.4.3"
rand = "=0.8.8"
axum = "=0.6.20"
tokio = { version = "=1.54.1", features = ["full"] }
tokio-util = { version = "=0.7.20", features = ["io"] }
tower-http = { version = "=0.4.4", features = ["trace"] }
tracing = "=0.1.44"
tracing-subscriber = { version = "=0.3.23", features = ["env-filter"] }
argh = "=0.1.19"
igd = { version = "=0.12.1", features = ["aio"] }
local-ip-address = "=0.5.7"
dioxus = { version = "=0.2.4", features = ["ssr"] }
eframe = "0.19"
