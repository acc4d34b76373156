[package]
name = "rabbiteer"
version = "0.1.0"
edition = "2021"
publish = false

[dependencies]
conduit-mime-types = "*"
rand = "*"
amqp = "*"
clap = "*"
