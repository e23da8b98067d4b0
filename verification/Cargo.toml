[package]
name = "urbit_chatbot_framework"
version = "0.1.0"
edition = "2021"
publish = false

[dependencies]
json = "=0.12.4"
urbit-http-api = "=0.7.3"
