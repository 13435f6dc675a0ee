[package]
name = "watchlist"
version = "0.1.0"
edition = "2021"
publish = false

[dependencies]
libc = "=0.2.191"
rusqlite = { version = "=0.41.0", features = ["fallible_uint"] }
termsize = "=0.1.9"
uuid = { version = "=1.29.0", features = ["v4"] }

[dev-dependencies]
regex = "1"
