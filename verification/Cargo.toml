[package]
name = "strutils"
version = "0.1.0"
edition = "2021"
publish = false

[dependencies]
brotli = "=9.0.0"
flate2 = "=1.1.10"
shell-words = "=1.1.1"
slug = "=0.1.6"
textwrap = "=0.16.4"
nu-plugin = "=0.115.1"
nu-protocol = "=0.115.1"
