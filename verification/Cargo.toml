[package]
name = "erudition"
version = "0.1.0"
edition = "2021"
publish = false

[dependencies]
argon2 = { version = "=0.5.3", features = ["std"] }
getrandom = "=0.3.4"
actix-web = { version = "=4.18.1", default-features = false, features = ["macros", "cookies"] }
actix-cors = "=0.7.2"
clap = { version = "=4.6.7", features = ["derive"] }
color-eyre = { version = "=0.6.5", default-features = false }
dirs = "=6.0.0"
postcard = { version = "=1.1.3", features = ["use-std"] }
serde = { version = "=1.0.229", features = ["derive"] }
time = { version = "=0.3.55", features = ["formatting", "macros"] }
