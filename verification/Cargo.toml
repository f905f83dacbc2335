[package]
name = "heapscope"
version = "0.1.0"
edition = "2021"
publish = false

[dependencies]
anyhow = "=1.0.104"
crossterm = "=0.23.2"
jemalloc-ctl = "=0.5.4"
jemallocator = "=0.5.4"
ringbuffer = "0.16"
tui = "=0.18.0"
