[package]
name = "hello_apps"
version = "0.1.0"
edition = "2021"
publish = false

[dependencies]
vello_common = "*"
vello_cpu = "*"
softbuffer = "*"
winit = "*"
pollster = "*"
vello = "*"
parley = "*"
cocoa = "*"
