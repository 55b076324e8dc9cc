[package]
name = "typedb_client"
version = "0.1.0"
edition = "2021"
publish = false

[dependencies]
chrono = "0.4"
crossbeam = "=0.8.5"
futures = "=0.3.34"
grpc = "=0.8.3"
log = "=0.4.34"
protobuf = "=2.28.0"
tokio = { version = "=1.54.1", features = ["rt", "rt-multi-thread", "sync", "time", "macros"] }
tonic = { version = "=0.8.3", features = ["tls"] }
typedb-protocol = "=2.18.1"
typeql = "=2.25.8"
uuid = { version = "=1.29.0", features = ["v4"] }
