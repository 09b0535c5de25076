[package]
name = "readlater"
version = "0.1.0"
edition = "2021"
publish = false

[dependencies]
ammonia = "*"
select = "*"
sqlite = "*"
reqwest = { version = "*", default-features = false, features = ["blocking"] }
readability = "*"
platform-dirs = "*"
temp-dir = "*"
structopt = "*"

[dev-dependencies]
rss = "*"
chrono = "*"
