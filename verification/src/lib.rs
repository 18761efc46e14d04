//! Vhost-user vsock device backend.

pub mod backend;
pub mod cli;
pub mod config;
pub mod conn_laws;
pub mod error;
pub mod event_laws;
pub mod guest;
pub mod handshake;
pub mod packet;
pub mod proto;
pub mod routing_laws;
pub mod rxops;
pub mod rxqueue;
pub mod text;
pub mod text_laws;
pub mod thread;
pub mod thread_backend;
pub mod txbuf;
pub mod vsock_conn;
pub mod wire;
