[package]
name = "sql_filter"
version = "0.1.0"
edition = "2021"
publish = false

[dependencies]
boolinator = "2.4"
sqlparser = { version = "*", default-features = false, features = ["std"] }
thiserror = "*"
