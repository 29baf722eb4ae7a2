[package]
name = "hyper_trace_id"
version = "0.1.0"
edition = "2021"
publish = false

[dependencies]
axum = "0.6"
futures = "0.3"
hyper = "0.14"
tower = { version = "0.4", features = ["util"] }
uuid = { version = "1", features = ["v4"] }
