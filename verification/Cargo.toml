[package]
name = "leaves"
version = "0.1.0"
edition = "2021"
publish = false

[dependencies]
async-std = "1"
async-trait = "0.1"
barrel = { version = "0.6", features = ["sqlite3"] }
bytesize = "1"
directories-next = "2"
envy = "0.4"
isahc = "1"
log = "0.4"
r2d2 = "0.8"
r2d2_sqlite = "*"
rand = "0.7"
rusqlite = { version = "*", features = ["bundled"] }
serde = { version = "1", features = ["derive"] }
serde_json = "1"
serde_rusqlite = "*"
tide = "0.16"
