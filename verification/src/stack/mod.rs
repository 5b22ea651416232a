//! The network stack underneath: what its sockets hold, and what each call on them does.
pub mod raw_layer;
pub mod socket_set;
pub mod tcp_layer;
pub mod udp_layer;
pub mod waker;
