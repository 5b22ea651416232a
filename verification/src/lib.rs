//! TCP, UDP and raw sockets for asynchronous tasks, on top of a network stack that is driven by
//! polling.
//!
//! Each socket is a handle into the [`reactor::Reactor`], which owns the sockets of the stack.
//! A `poll_*` method makes one attempt at an operation. Either it is over, or the task of the
//! waker is noted at the stack's socket and will be woken for another attempt. Where the stack
//! has something to do as a consequence, the reactor is notified.
//!
//! [`stack`] says what the sockets of the stack hold and what each call on them does;
//! [`value_laws`], [`reactor_laws`], [`tcp_laws`], [`udp_laws`] and [`raw_laws`] say what single
//! calls do in terms of what the sockets hold, and [`plain`] has the words for it;
//! [`laws`] says what holds over several calls, and [`history`] what such calls are.
pub mod addr;
pub mod bind_kind;
pub mod error;
pub mod history;
pub mod laws;
pub mod plain;
pub mod poll;
pub mod raw_laws;
pub mod raw_socket;
pub mod reactor;
pub mod reactor_laws;
pub mod stack;
pub mod tcp_laws;
pub mod tcp_socket;
pub mod udp_laws;
pub mod udp_socket;
pub mod value_laws;

pub use smoltcp::socket::{raw, tcp, udp};
