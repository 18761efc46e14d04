[package]
name = "vhost_user_vsock"
version = "0.1.0"
edition = "2021"
publish = false

[dependencies]
byteorder = "=1.5.0"
clap = "=2.34.0"
epoll = "=4.4.0"
futures = { version = "=0.3.34", features = ["thread-pool"] }
log = "=0.4.35"
vhost = { version = "0.8", features = ["vhost-user-slave"] }
vhost-user-backend = "0.10"
virtio-bindings = "0.2"
virtio-queue = "0.9"
vm-memory = { version = "0.12", features = ["backend-mmap", "backend-atomic"] }
vmm-sys-util = "0.11"
