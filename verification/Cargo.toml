[package]
name = "wooden_box"
version = "0.1.0"
edition = "2021"
publish = false

[dependencies]
heapless = "=0.8.0"
minimq = "=0.10.0"
embedded-nal = "=0.9.0"
embedded-time = "=0.12.1"
smoltcp = { version = "=0.12.0", default-features = false, features = ["medium-ethernet", "proto-ipv4", "socket-tcp", "socket-dhcpv4"] }
smoltcp-nal = "=0.7.0"
esp-hal = "=1.1.2"
esp-println = "=0.18.0"
esp-radio = "=0.18.0"
esp-rtos = "=0.3.0"
esp-alloc = "=0.11.0"
esp-bootloader-esp-idf = "=0.6.0"
