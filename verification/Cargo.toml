[package]
name = "iroh-h3"
version = "0.1.0"
edition = "2021"
publish = false

[dependencies]
bytes = "=1.12.1"
futures = "=0.3.34"
h3 = { version = "=0.0.8", features = ["i-implement-a-third-party-backend-and-opt-into-breaking-changes"] }
http = "=1.5.0"
http-body = "=1.1.0"
http-body-util = "=0.1.5"
iroh = { version = "=1.4.1", default-features = false }
n0-future = "=0.3.2"
tracing = "=0.1.44"
