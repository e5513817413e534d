[package]
name = "ic-http-gateway"
version = "0.1.0"
edition = "2021"
publish = false

[dependencies]
bytes = "*"
candid = "*"
futures = "*"
http = "*"
http-body = "*"
http-body-util = "*"
ic-agent = "*"
ic-http-certification = "*"
ic-response-verification = "*"
ic-utils = "*"
