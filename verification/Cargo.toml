[package]
name = "brownhttpd"
version = "0.1.0"
edition = "2021"
publish = false

[dependencies]
clap = "2"
daemonize = "0.4"
libc = "0.2"
time = "0.1"
tiny_http = "0.6"
