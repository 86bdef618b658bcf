[package]
name = "llama_chat"
version = "0.1.0"
edition = "2021"
publish = false

[dependencies]
serde = { version = "=1.0.229", features = ["derive"] }
serde_json = "=1.0.154"
urlencoding = "=2.1.3"
sha1 = "=0.10.7"
base64 = "=0.22.1"
hyper = { version = "=0.14.32", default-features = false }
chrono = "=0.4.45"
gguf-llms = "=0.0.2"
regex = "=1.13.1"
htmd = "=0.5.6"
html2text = "=0.17.4"
pdf-extract = "=0.12.1"
zip = { version = "=9.2.2", default-features = false, features = ["deflate"] }
quick-xml = "=0.37.5"
csv = "=1.4.0"
mailparse = "=0.18.0"
rtf-parser = "=0.4.3"
calamine = "=0.38.0"
dom_smoothie = "=0.19.0"
