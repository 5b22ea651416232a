//! Raw IP sockets.
use crate::error::{map_err, Error, ErrorKind, ErrorView, Refusal};
use crate::poll::Poll;
use crate::reactor::{Reactor, ReactorView};
use crate::stack::raw_layer;
use crate::stack::raw_layer::{IpVersion, RawView, RecvError, SendError};
use crate::stack::waker::task;
use smoltcp::iface::SocketHandle;
use std::task::Waker;
use vstd::prelude::*;

verus! {

/// A raw socket.
pub struct RawSocket {
    handle: SocketHandle,
}

impl RawSocket {
    /// The place of the stack's socket.
    pub closed spec fn handle_spec(&self) -> SocketHandle {
        self.handle
    }
}

/// What an attempt to send a packet of `len` octets comes to.
pub open spec fn send_outcome(socket: RawView, len: nat) -> Poll<Result<usize, ErrorView>> {
    match socket.send_result(len) {
        Ok(()) => Poll::Ready(Ok(len as usize)),
        Err(SendError::BufferFull) => Poll::Pending,
    }
}

/// The reactor after such an attempt by a task, with the room that is then left.
pub open spec fn after_send(
    before: ReactorView,
    handle: SocketHandle,
    data: Seq<u8>,
    tx_room: Set<nat>,
    task: int,
) -> ReactorView {
    let socket = before.raw_at(handle);
    match socket.send_result(data.len()) {
        Ok(()) => before.with_raw(
            handle,
            RawView { tx: socket.tx.push(data), tx_room, ..socket },
        ).notify(),
        Err(SendError::BufferFull) => before.with_raw(
            handle,
            RawView { tx_room, ..socket }.awaited_by_writer(task),
        ),
    }
}

/// What an attempt to receive a packet into `room` octets comes to: the length of the packet.
pub open spec fn recv_outcome(socket: RawView, room: nat) -> Poll<Result<usize, ErrorView>> {
    match socket.recv_result(room) {
        Ok(size) => Poll::Ready(Ok(size)),
        Err(RecvError::Exhausted) => Poll::Pending,
        Err(e) => Poll::Ready(Err(ErrorView::saying(ErrorKind::Other, e.text()))),
    }
}

/// The reactor after such an attempt by a task.
pub open spec fn after_recv(
    before: ReactorView,
    handle: SocketHandle,
    task: int,
) -> ReactorView {
    let socket = before.raw_at(handle);
    if socket.rx.len() == 0 {
        before.with_raw(handle, socket.awaited_by_reader(task))
    } else {
        before.with_raw(handle, socket.drained())
    }
}

/// What the receiver's buffer holds after such an attempt.
pub open spec fn recv_into(socket: RawView, buf: Seq<u8>) -> Seq<u8> {
    match socket.recv_result(buf.len()) {
        Ok(size) => socket.rx[0] + buf.skip(size as int),
        Err(_) => buf,
    }
}

impl RawSocket {
    /// Makes a socket for the packets of one protocol, over one version of IP.
    pub fn new(reactor: &mut Reactor, ip_version: IpVersion, ip_protocol: u8) -> (r: Result<
        RawSocket,
        Error,
    >)
        requires
            old(reactor)@.wf(),
        ensures
            r matches Ok(socket) && {
                &&& !old(reactor)@.sockets.contains_key(socket.handle_spec())
                &&& final(reactor)@ == old(reactor)@.with_raw(
                    socket.handle_spec(),
                    old(reactor)@.fresh_raw(ip_version, ip_protocol),
                )
            },
    {
        let handle = reactor.new_raw_socket(ip_version, ip_protocol);
        Ok(RawSocket { handle })
    }

    /// Sends a packet, header included. While there is no room for it, the task waits.
    ///
    /// Note that on multiple calls to a `poll_*` method in the send direction, only the task of
    /// the waker passed to the most recent call will be woken.
    pub fn poll_send(&self, reactor: &mut Reactor, waker: &Waker, buf: &[u8]) -> (r: Poll<
        Result<usize, Error>,
    >)
        requires
            old(reactor)@.has_raw(self.handle_spec()),
        ensures
            ({
                let socket = old(reactor)@.raw_at(self.handle_spec());
                &&& r.outcome() == send_outcome(socket, buf@.len())
                &&& r is Ready ==> socket.fits(buf@.len())
                &&& final(reactor)@.raw_at(self.handle_spec()).room_bounded()
                &&& final(reactor)@ == after_send(
                    old(reactor)@,
                    self.handle_spec(),
                    buf@,
                    final(reactor)@.raw_at(self.handle_spec()).tx_room,
                    task(*waker),
                )
            }),
    {
        let socket = reactor.raw_mut(self.handle);
        match raw_layer::send_slice(socket, buf) {
            Ok(()) => {
                reactor.notify();
                Poll::Ready(Ok(buf.len()))
            },
            Err(SendError::BufferFull) => {
                raw_layer::register_send_waker(socket, waker);
                Poll::Pending
            },
        }
    }

    /// Receives a packet, header included, into the front of `buf`, and tells its length. While
    /// there is none, the task waits. A packet for which `buf` is too short is lost.
    ///
    /// Note that on multiple calls to a `poll_*` method in the recv direction, only the task of
    /// the waker passed to the most recent call will be woken.
    pub fn poll_recv(&self, reactor: &mut Reactor, waker: &Waker, buf: &mut [u8]) -> (r: Poll<
        Result<usize, Error>,
    >)
        requires
            old(reactor)@.has_raw(self.handle_spec()),
        ensures
            ({
                let socket = old(reactor)@.raw_at(self.handle_spec());
                &&& r.outcome() == recv_outcome(socket, old(buf)@.len())
                &&& final(buf)@ == recv_into(socket, old(buf)@)
                &&& final(reactor)@ == after_recv(
                    old(reactor)@,
                    self.handle_spec(),
                    task(*waker),
                )
            }),
    {
        let socket = reactor.raw_mut(self.handle);
        match raw_layer::recv_slice(socket, buf) {
            Ok(size) => Poll::Ready(Ok(size)),
            Err(RecvError::Exhausted) => {
                raw_layer::register_recv_waker(socket, waker);
                Poll::Pending
            },
            Err(e) => Poll::Ready(Err(map_err(e))),
        }
    }

    /// The place of the stack's socket.
    pub fn handle(&self) -> (r: SocketHandle)
        ensures
            r == self.handle_spec(),
    {
        self.handle
    }
}

} // verus!
