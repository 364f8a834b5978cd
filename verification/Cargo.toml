[package]
name = "sp_postgresql"
version = "0.1.0"
edition = "2021"
publish = false

[dependencies]
postgres = { version = "0.19", features = ["with-chrono-0_4", "with-uuid-1", "with-serde_json-1"] }
native-tls = "0.2"
postgres-native-tls = "0.5"
chrono = "0.4"
uuid = "1"
serde_json = "1"
