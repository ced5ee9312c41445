[package]
name = "passcode"
version = "0.1.0"
edition = "2021"
publish = false

[dependencies]
rand = "=0.8.8"
diesel = { version = "=2.2.12", default-features = false, features = ["postgres_backend", "uuid"] }
diesel-async = { version = "=0.5.2", default-features = false, features = ["postgres"] }
dotenvy = "=0.15.7"
tokio = { version = "=1.53.2", default-features = false, features = ["macros", "rt"] }
uuid = "=1.27.0"
futures-util = { version = "=0.3.34", default-features = false, features = ["std", "sink", "async-await", "async-await-macro"] }
