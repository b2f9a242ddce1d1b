[package]
name = "lora_boite_lettres"
version = "0.1.0"
edition = "2021"
publish = false

[dependencies]
anyhow = "1"
chrono = "0.4"
heapless = "0.8"
log = "0.4"
embedded-graphics = "0.8"
ssd1306 = "*"
esp-idf-svc = "*"
