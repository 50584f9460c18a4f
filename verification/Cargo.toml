[package]
name = "rknpu_drivers"
version = "0.1.0"
edition = "2021"
publish = false

[dependencies]
dma-api = "*"
mbarrier = "*"
spin = "*"
log = "*"
bitflags = "2"
heapless = "*"
rdif-serial = "*"
rdif-base = "*"
rdrive = "*"
axklib = "*"
rockchip-pm = "*"
cfg-if = "*"
paste = "*"
