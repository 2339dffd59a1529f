[package]
name = "wasi_host"
version = "0.1.0"
edition = "2021"
publish = false

[dependencies]
anyhow = "1"
async-trait = "0.1"
bytes = "1"
cap-fs-ext = "3"
cap-net-ext = "3"
cap-rand = "3"
cap-std = "3"
fs-set-times = "0.20"
futures = "0.3"
io-lifetimes = "2"
rustix = { version = "0.38", features = ["event", "fs", "net"] }
rustls = { version = "0.23", default-features = false, features = ["std"] }
system-interface = { version = "0.27", features = ["cap_std_impls"] }
tokio = { version = "1", features = ["io-util", "net", "rt", "rt-multi-thread", "sync"] }
tokio-rustls = { version = "0.26", default-features = false }
tracing = "0.1"
wasmtime = { version = "32", default-features = false, features = ["runtime", "component-model"] }
webpki-roots = "0.26"

[dev-dependencies]
windows-sys = { version = "0.59", features = ["Win32_Foundation"] }
