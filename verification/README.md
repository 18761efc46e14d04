# vhost-user-vsock

A vhost-user device backend that connects applications on the host with applications in a guest
through virtio-vsock. Host-side applications talk to the device over unix domain sockets.

## Layout

- `src/` is the library. It holds the protocol logic and does no I/O: its functions take in what
  happened on streams and queues and say what is to be done. Its functions are verified with Verus
  against the contracts that they carry. The exceptions are the small wrappers around calls into
  other crates and the standard library, marked `external_body`, and the one `assume_specification`:
  their contracts are believed, and say in their doc comments what of.
  - `packet`, `wire`, `guest`: packets, their header, and where they lie in guest memory
  - `txbuf`, `rxops`, `rxqueue`, `vsock_conn`: one connection, with its buffer, its pending
    operations and its flow control
  - `thread_backend`, `thread`: the connections of a worker thread, the routing of packets, and the
    reaction to events on streams and queues
  - `backend`: what the device offers, and the stages of the answer to a device event
  - `handshake`, `text`, `cli`, `config`: the request for a port, and the parameters
- `app/` is the program around it: sockets, epoll, the vhost-user daemon and the command line.
- `tests/` holds the tests of the library.

## Usage

Run the device:

```
vhost_user_vsock --vsock-backend guest-cid=4,uds-path=/tmp/vm4.vsock,socket=/tmp/vhost4.socket
```

An application on the host reaches port 1234 of the guest by connecting to `/tmp/vm4.vsock` and
sending the line `CONNECT 1234`; it is answered with `OK 1234` once the guest has accepted. An
application in the guest that connects to port 1234 of the host (CID 2) reaches the application
that listens on `/tmp/vm4.vsock_1234`.
