[package]
name = "firewire-protocols"
version = "0.1.0"
edition = "2021"
publish = false

[dependencies]
glib = "=0.21.5"
hinawa = "=0.13.0"
hitaki = "*"
ieee1212-config-rom = "=0.1.2"
