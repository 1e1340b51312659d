[package]
name = "grepbot"
version = "0.1.0"
edition = "2021"
publish = false

[dependencies]
regex = "1"
serde = "1"
serde_json = "1"
serenity = "0.8"
mvdb = "*"
log = "0.4"
fern = "0.5"
chrono = "0.4"
dotenv = "*"
