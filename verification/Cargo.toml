[package]
name = "question_poster"
version = "0.1.0"
edition = "2021"
publish = false

[dependencies]
deso = "=0.2.1"
dotenv = "=0.15.0"
rand = "0.8"
reqwest = { version = "=0.13.5", features = ["blocking"] }
serde_json = "=1.0.154"
shuffle = "=0.1.7"
