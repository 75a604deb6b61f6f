[package]
name = "riscv_emu"
version = "0.1.0"
edition = "2021"
publish = false

[dependencies]
getopts = "0.2"
memmap = "0.7"
pancurses = "*"
