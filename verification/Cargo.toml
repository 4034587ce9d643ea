[package]
name = "audit_report"
version = "0.1.0"
edition = "2021"
publish = false

[dependencies]
chrono = "0.4"
printpdf = "0.7"
serde = { version = "1", features = ["derive"] }
