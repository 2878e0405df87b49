[package]
name = "rusty_picopd"
version = "0.1.0"
edition = "2021"
publish = false

[dependencies]
defmt = "*"
defmt-rtt = "*"
embassy-executor = "*"
embassy-futures = "*"
embassy-rp = "*"
embassy-time = "*"
embedded-hal = "*"
embedded-hal-bus = "*"
panic-probe = "*"
