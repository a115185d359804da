[package]
name = "tk_http"
version = "0.1.0"
edition = "2021"
publish = false

[dependencies]
httparse = "1"
netbuf = "0.4"
futures = "0.1"
tokio-core = "0.1"
tokio-io = "0.1"
tk-bufstream = "0.3"
url = "1"
quick-error = "1"
