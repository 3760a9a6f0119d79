[package]
name = "rpictl"
version = "0.1.0"
edition = "2021"
publish = false

[dependencies]
substring = "=1.4.5"
rppal = "=0.22.1"
chrono = "=0.4.45"
daemonize = "=0.4.1"
log = "=0.4.35"
simple_logger = "=5.2.0"
lcd = "=0.4.1"
