[package]
name = "stellar-archivist"
version = "0.1.0"
edition = "2021"
publish = false

[dependencies]
async-compression = { version = "=0.4.52", features = ["tokio", "gzip"] }
async-trait = "=0.1.92"
bytes = "=1.12.1"
futures-util = "=0.3.34"
hex = "=0.4.3"
normalize-path = "=0.2.2"
opendal = { version = "=0.55.0", default-features = false, features = ["executors-tokio", "layers-throttle", "services-fs", "services-http", "services-s3", "services-gcs", "services-azblob", "services-b2", "services-swift", "services-sftp"] }
reqwest = { version = "=0.12.28", default-features = false }
sha2 = "=0.11.1"
thiserror = "=2.0.21"
tokio = { version = "=1.54.1", features = ["fs", "io-util", "rt", "sync", "macros"] }
tokio-stream = "=0.1.19"
tokio-util = { version = "=0.7.20", features = ["io"] }
tracing = "=0.1.44"
url = "=2.5.8"
