[package]
name = "activity_report"
version = "0.1.0"
edition = "2021"
publish = false

[dependencies]
calamine = "*"
chrono = "0.4"
configparser = "*"
rust_xlsxwriter = "*"
