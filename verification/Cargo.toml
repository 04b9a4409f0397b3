[package]
name = "accounts"
version = "0.1.0"
edition = "2021"
publish = false

[dependencies]
bcrypt = "=0.8.2"
chrono = "=0.4.45"
diesel = { version = "=1.4.8", features = ["postgres", "chrono", "uuidv07"] }
rocket = { version = "0.5", default-features = false }
slog = "=2.8.2"
uuid = { version = "=0.8.2", features = ["v4"] }
