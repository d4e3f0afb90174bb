[package]
name = "apigrok"
version = "0.1.0"
edition = "2021"
publish = false

[dependencies]
ansi_term = "0.12"
async-trait = "0.1"
clap = { version = "4", features = ["derive"] }
clap_complete = "4"
h2 = "0.4"
http-body-util = "0.1"
hyper = { version = "1", features = ["client", "http1", "http2"] }
hyper-util = { version = "0.1", features = ["tokio"] }
rustls = { version = "0.23", default-features = false, features = ["ring", "std", "tls12"] }
rustls-native-certs = "*"
serde = { version = "1", features = ["derive"] }
tokio = { version = "1", features = ["macros", "net", "rt-multi-thread", "sync", "time"] }
tokio-rustls = { version = "0.26", default-features = false, features = ["ring"] }
url = "2"
x509-parser = "*"
