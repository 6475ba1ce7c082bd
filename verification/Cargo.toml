[package]
name = "beedle"
version = "0.1.0"
edition = "2021"
publish = false

[dependencies]
actix-csrf = "*"
actix-files = "0.6"
actix-session = { version = "*", features = ["cookie-session"] }
actix-web = "4"
chrono = "0.4"
diesel = { version = "2", features = ["postgres", "r2d2", "uuid", "chrono", "serde_json"] }
dotenv = "0.15"
env_logger = "*"
futures-util = "0.3"
hex = "0.4"
lettre = "*"
log = "0.4"
r2d2 = "0.8"
rand = "0.8"
reqwest = { version = "*", features = ["json"] }
serde = { version = "1", features = ["derive"] }
serde_json = "1"
tera = "1"
thiserror = "1"
tokio = { version = "1", features = ["signal", "macros", "rt"] }
urlencoding = "2"
uuid = { version = "1", features = ["v4"] }
