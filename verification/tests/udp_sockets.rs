use smoltcp::iface::{Config, Interface};
use smoltcp::phy::{Loopback, Medium};
use smoltcp::socket::udp;
use smoltcp::time::Instant;
use smoltcp::wire::{HardwareAddress, IpAddress, IpCidr};
use std::sync::atomic::{AtomicUsize, Ordering};
use std::sync::Arc;
use std::task::{Wake, Waker};
use tokio_smoltcp::addr::{IpAddr, IpEndpoint, IpListenEndpoint, SocketAddr};
use tokio_smoltcp::error::{Error, ErrorKind};
use tokio_smoltcp::poll::Poll;
use tokio_smoltcp::reactor::{BufferSize, Reactor};
use tokio_smoltcp::stack::udp_layer::{BindError, RecvError, SendError};
use tokio_smoltcp::udp_socket::{Metadata, RecvFrom, SendFrom, UdpSocket};

const LOCALHOST: IpAddr = IpAddr::V4(0x7f00_0001);
const NEIGHBOUR: IpAddr = IpAddr::V4(0x7f00_0002);
const LOCALHOST_6: IpAddr = IpAddr::V6(1);

struct Wakes(AtomicUsize);

impl Wake for Wakes {
    fn wake(self: Arc<Self>) {
        self.0.fetch_add(1, Ordering::SeqCst);
    }
}

fn counting() -> (Arc<Wakes>, Waker) {
    let wakes = Arc::new(Wakes(AtomicUsize::new(0)));
    (wakes.clone(), Waker::from(wakes))
}

fn idle() -> Waker {
    counting().1
}

struct World {
    iface: Interface,
    device: Loopback,
    reactor: Reactor,
    now: i64,
}

fn world(tx_packets: usize) -> World {
    let mut device = Loopback::new(Medium::Ip);
    let config = Config::new(HardwareAddress::Ip);
    let mut iface = Interface::new(config, &mut device, Instant::from_millis(0));
    iface.update_ip_addrs(|addrs| {
        addrs.push(IpCidr::new(IpAddress::v4(127, 0, 0, 1), 8)).unwrap();
        addrs.push(IpCidr::new(IpAddress::v6(0, 0, 0, 0, 0, 0, 0, 1), 128)).unwrap();
    });
    let reactor = Reactor::new(BufferSize {
        tcp_rx_size: 64,
        tcp_tx_size: 64,
        udp_rx_size: 64,
        udp_tx_size: 64,
        udp_rx_meta_size: 4,
        udp_tx_meta_size: tx_packets,
        raw_rx_size: 64,
        raw_tx_size: 64,
        raw_rx_meta_size: 4,
        raw_tx_meta_size: 4,
    });
    World { iface, device, reactor, now: 0 }
}

impl World {
    fn run(&mut self) {
        for _ in 0..10 {
            self.now += 10;
            let now = Instant::from_millis(self.now);
            self.iface.poll(now, &mut self.device, self.reactor.sockets_mut());
        }
    }

    fn sockets(&mut self) -> usize {
        self.reactor.sockets_mut().iter().count()
    }

    fn bind(&mut self, addr: IpAddr, port: u16) -> Result<UdpSocket, Error> {
        let endpoint = IpListenEndpoint { addr: Some(addr), port };
        UdpSocket::new(&mut self.reactor, endpoint, SocketAddr::new(addr, port))
    }
}

fn at(addr: IpAddr, port: u16) -> SocketAddr {
    SocketAddr::new(addr, port)
}

fn failed<T>(outcome: Result<T, Error>) -> Error {
    match outcome {
        Ok(_) => panic!("the call succeeded"),
        Err(e) => e,
    }
}

#[test]
fn a_datagram_arrives_whole() {
    let mut w = world(4);
    let alice = w.bind(LOCALHOST, 1000).ok().unwrap();
    let bob = w.bind(LOCALHOST, 2000).ok().unwrap();
    let sent = alice.poll_send_to(&mut w.reactor, &idle(), b"hello", at(LOCALHOST, 2000));
    assert_eq!(sent, Poll::Ready(Ok(5)));
    assert!(w.reactor.take_notified());
    w.run();
    let mut buf = [9u8; 8];
    let received = bob.poll_recv_from_full(&mut w.reactor, &idle(), &mut buf);
    let datagram = (5, at(LOCALHOST, 2000), at(LOCALHOST, 1000));
    assert_eq!(received, Poll::Ready(Ok(RecvFrom::Received(datagram))));
    assert!(w.reactor.take_notified());
    assert_eq!(&buf, b"hello\x09\x09\x09");
    assert_eq!(bob.poll_recv_from(&mut w.reactor, &idle(), &mut buf), Poll::Pending);
    assert!(!w.reactor.take_notified());
}

#[test]
fn a_datagram_arrives_over_version_6() {
    let mut w = world(4);
    let alice = w.bind(LOCALHOST_6, 1000).ok().unwrap();
    let bob = w.bind(LOCALHOST_6, 2000).ok().unwrap();
    let sent = alice.poll_send_to(&mut w.reactor, &idle(), b"six", at(LOCALHOST_6, 2000));
    assert_eq!(sent, Poll::Ready(Ok(3)));
    w.run();
    let mut buf = [0u8; 8];
    let received = bob.poll_recv_from_full(&mut w.reactor, &idle(), &mut buf);
    let datagram = (3, at(LOCALHOST_6, 2000), at(LOCALHOST_6, 1000));
    assert_eq!(received, Poll::Ready(Ok(RecvFrom::Received(datagram))));
    assert_eq!(&buf[..3], b"six");
}

#[test]
fn datagrams_are_received_in_their_order() {
    let mut w = world(4);
    let alice = w.bind(LOCALHOST, 1000).ok().unwrap();
    let bob = w.bind(LOCALHOST, 2000).ok().unwrap();
    for data in [b"1", b"2", b"3"] {
        let sent = alice.poll_send_to(&mut w.reactor, &idle(), data, at(LOCALHOST, 2000));
        assert_eq!(sent, Poll::Ready(Ok(1)));
    }
    w.run();
    let mut buf = [0u8; 1];
    for data in [b"1", b"2", b"3"] {
        let received = bob.poll_recv_from(&mut w.reactor, &idle(), &mut buf);
        assert_eq!(received, Poll::Ready(Ok(RecvFrom::Received((1, at(LOCALHOST, 1000))))));
        assert_eq!(&buf, data);
    }
}

#[test]
fn an_empty_datagram_is_a_datagram() {
    let mut w = world(4);
    let alice = w.bind(LOCALHOST, 1000).ok().unwrap();
    let bob = w.bind(LOCALHOST, 2000).ok().unwrap();
    let sent = alice.poll_send_to(&mut w.reactor, &idle(), b"", at(LOCALHOST, 2000));
    assert_eq!(sent, Poll::Ready(Ok(0)));
    w.run();
    let received = bob.poll_recv_from(&mut w.reactor, &idle(), &mut []);
    assert_eq!(received, Poll::Ready(Ok(RecvFrom::Received((0, at(LOCALHOST, 1000))))));
}

#[test]
fn a_datagram_that_is_too_long_for_the_buffer_is_lost() {
    let mut w = world(4);
    let alice = w.bind(LOCALHOST, 1000).ok().unwrap();
    let bob = w.bind(LOCALHOST, 2000).ok().unwrap();
    for data in [&b"long"[..], &b"ok"[..]] {
        let sent = alice.poll_send_to(&mut w.reactor, &idle(), data, at(LOCALHOST, 2000));
        assert_eq!(sent, Poll::Ready(Ok(data.len())));
    }
    w.run();
    w.reactor.take_notified();
    let mut buf = [0u8; 2];
    let received = bob.poll_recv_from_full(&mut w.reactor, &idle(), &mut buf);
    assert_eq!(received, Poll::Ready(Err(Error::new(ErrorKind::Other, "truncated"))));
    assert!(!w.reactor.take_notified());
    assert_eq!(&buf, &[0, 0]);
    let received = bob.poll_recv_from(&mut w.reactor, &idle(), &mut buf);
    assert_eq!(received, Poll::Ready(Ok(RecvFrom::Received((2, at(LOCALHOST, 1000))))));
    assert_eq!(&buf, b"ok");
}

#[test]
fn sending_to_nowhere_is_refused() {
    let mut w = world(4);
    let alice = w.bind(LOCALHOST, 1000).ok().unwrap();
    let refused = Error::new(ErrorKind::Other, "unaddressable");
    let sent = alice.poll_send_to(&mut w.reactor, &idle(), b"x", at(IpAddr::V4(0), 1));
    assert_eq!(sent, Poll::Ready(Err(Error::new(ErrorKind::Other, "unaddressable"))));
    let sent = alice.poll_send_to(&mut w.reactor, &idle(), b"x", at(LOCALHOST, 0));
    assert_eq!(sent, Poll::Ready(Err(refused)));
    assert!(!w.reactor.take_notified());
}

#[test]
fn a_sender_waits_for_room_and_the_latest_is_woken() {
    let mut w = world(1);
    let alice = w.bind(LOCALHOST, 1000).ok().unwrap();
    let target = at(LOCALHOST, 2000);
    assert_eq!(alice.poll_send_to(&mut w.reactor, &idle(), b"x", target), Poll::Ready(Ok(1)));
    w.reactor.take_notified();
    let (first, waker1) = counting();
    let (second, waker2) = counting();
    assert_eq!(alice.poll_send_to(&mut w.reactor, &waker1, b"y", target), Poll::Pending);
    assert_eq!(alice.poll_send_to(&mut w.reactor, &waker2, b"y", target), Poll::Pending);
    assert!(!w.reactor.take_notified());
    w.run();
    assert_eq!(first.0.load(Ordering::SeqCst), 0);
    assert_eq!(second.0.load(Ordering::SeqCst), 1);
    assert_eq!(alice.poll_send_to(&mut w.reactor, &waker1, b"y", target), Poll::Ready(Ok(1)));
}

#[test]
fn of_two_receivers_the_latest_is_woken() {
    let mut w = world(4);
    let alice = w.bind(LOCALHOST, 1000).ok().unwrap();
    let bob = w.bind(LOCALHOST, 2000).ok().unwrap();
    let (first, waker1) = counting();
    let (second, waker2) = counting();
    let mut buf = [0u8; 4];
    assert_eq!(bob.poll_recv_from(&mut w.reactor, &waker1, &mut buf), Poll::Pending);
    assert_eq!(bob.poll_recv_from_full(&mut w.reactor, &waker2, &mut buf), Poll::Pending);
    let sent = alice.poll_send_to(&mut w.reactor, &idle(), b"x", at(LOCALHOST, 2000));
    assert_eq!(sent, Poll::Ready(Ok(1)));
    w.run();
    assert_eq!(first.0.load(Ordering::SeqCst), 0);
    assert_eq!(second.0.load(Ordering::SeqCst), 1);
}

#[test]
fn a_datagram_above_the_capacity_never_fits() {
    let mut w = world(4);
    let alice = w.bind(LOCALHOST, 1000).ok().unwrap();
    let data = [0u8; 65];
    let target = at(LOCALHOST, 2000);
    assert_eq!(alice.poll_send_to(&mut w.reactor, &idle(), &data, target), Poll::Pending);
    w.run();
    assert_eq!(alice.poll_send_to(&mut w.reactor, &idle(), &data, target), Poll::Pending);
    assert_eq!(
        alice.poll_send_to(&mut w.reactor, &idle(), &data[..64], target),
        Poll::Ready(Ok(64))
    );
}

#[test]
fn binding_to_port_zero_is_refused() {
    let mut w = world(4);
    let refused = w.bind(LOCALHOST, 0);
    assert_eq!(failed(refused), Error::new(ErrorKind::Other, "unaddressable"));
    assert_eq!(w.sockets(), 0);
}

#[test]
fn a_bound_socket_reports_its_address() {
    let mut w = world(4);
    let alice = w.bind(LOCALHOST_6, 1000).ok().unwrap();
    assert_eq!(alice.local_addr(), Ok(at(LOCALHOST_6, 1000)));
    let endpoint = w.reactor.sockets_mut().get::<udp::Socket>(alice.handle()).endpoint();
    assert_eq!(endpoint.addr, Some(IpAddress::v6(0, 0, 0, 0, 0, 0, 0, 1)));
    assert_eq!(endpoint.port, 1000);
}

#[test]
fn a_datagram_is_sent_from_the_address_asked_for() {
    let mut w = world(4);
    let alice = w.bind(LOCALHOST, 1000).ok().unwrap();
    let bob = w.bind(LOCALHOST, 2000).ok().unwrap();
    let sent = alice.poll_send_from(
        &mut w.reactor,
        &idle(),
        b"hi",
        at(NEIGHBOUR, 1000),
        at(LOCALHOST, 2000),
    );
    assert_eq!(sent, Poll::Ready(Ok(SendFrom::Queued(2))));
    assert!(w.reactor.take_notified());
    w.run();
    let mut buf = [0u8; 4];
    let received = bob.poll_recv_from(&mut w.reactor, &idle(), &mut buf);
    assert_eq!(received, Poll::Ready(Ok(RecvFrom::Received((2, at(NEIGHBOUR, 1000))))));
}

#[test]
fn an_answer_goes_back_to_the_sender() {
    let mut w = world(4);
    let alice = w.bind(LOCALHOST, 1000).ok().unwrap();
    let bob = w.bind(LOCALHOST, 2000).ok().unwrap();
    let sent = alice.poll_send_to(&mut w.reactor, &idle(), b"ping", at(LOCALHOST, 2000));
    assert_eq!(sent, Poll::Ready(Ok(4)));
    w.run();
    let mut buf = [0u8; 4];
    let (local, remote) = match bob.poll_recv_from_full(&mut w.reactor, &idle(), &mut buf) {
        Poll::Ready(Ok(RecvFrom::Received((4, local, remote)))) => (local, remote),
        _ => panic!("a datagram is there"),
    };
    let sent = bob.poll_send_from(&mut w.reactor, &idle(), b"pong", local, remote);
    assert_eq!(sent, Poll::Ready(Ok(SendFrom::Queued(4))));
    w.run();
    let received = alice.poll_recv_from(&mut w.reactor, &idle(), &mut buf);
    assert_eq!(received, Poll::Ready(Ok(RecvFrom::Received((4, at(LOCALHOST, 2000))))));
    assert_eq!(&buf, b"pong");
}

#[test]
fn sending_from_another_port_has_to_be_asked_for() {
    let mut w = world(4);
    let alice = w.bind(LOCALHOST, 1000).ok().unwrap();
    let sent = alice.poll_send_from(
        &mut w.reactor,
        &idle(),
        b"hi",
        at(NEIGHBOUR, 1001),
        at(LOCALHOST_6, 2000),
    );
    let local = IpEndpoint { addr: NEIGHBOUR, port: 1001 };
    let target = IpEndpoint { addr: LOCALHOST_6, port: 2000 };
    assert_eq!(sent, Poll::Ready(Ok(SendFrom::Ask { local, target })));
    assert!(!w.reactor.take_notified());
}

#[test]
fn sending_from_an_address_to_nowhere_is_refused() {
    let mut w = world(1);
    let alice = w.bind(LOCALHOST, 1000).ok().unwrap();
    let local = at(LOCALHOST, 1000);
    let sent = alice.poll_send_from(&mut w.reactor, &idle(), b"x", local, at(LOCALHOST, 0));
    assert_eq!(sent, Poll::Ready(Err(Error::new(ErrorKind::Other, "unaddressable"))));
    let target = at(LOCALHOST, 2000);
    let sent = alice.poll_send_from(&mut w.reactor, &idle(), b"x", local, target);
    assert_eq!(sent, Poll::Ready(Ok(SendFrom::Queued(1))));
    let sent = alice.poll_send_from(&mut w.reactor, &idle(), b"x", local, target);
    assert_eq!(sent, Poll::Pending);
}

#[test]
fn the_answer_of_the_stack_to_a_send_is_passed_on() {
    let mut w = world(4);
    let alice = w.bind(LOCALHOST, 1000).ok().unwrap();
    let (wakes, waker) = counting();
    let full = Err(SendError::BufferFull);
    assert_eq!(alice.poll_sent_from(&mut w.reactor, &waker, b"abc", full), Poll::Pending);
    assert!(!w.reactor.take_notified());
    let refused = Err(SendError::Unaddressable);
    assert_eq!(
        alice.poll_sent_from(&mut w.reactor, &waker, b"abc", refused),
        Poll::Ready(Err(Error::new(ErrorKind::Other, "unaddressable")))
    );
    assert!(!w.reactor.take_notified());
    assert_eq!(
        alice.poll_sent_from(&mut w.reactor, &waker, b"abc", Ok(())),
        Poll::Ready(Ok(3))
    );
    assert!(w.reactor.take_notified());
    w.reactor.sockets_mut().get_mut::<udp::Socket>(alice.handle()).close();
    assert_eq!(wakes.0.load(Ordering::SeqCst), 1);
}

#[test]
fn the_answer_of_the_stack_to_a_receive_is_passed_on() {
    let mut w = world(4);
    let alice = w.bind(LOCALHOST, 1000).ok().unwrap();
    let endpoint = IpEndpoint { addr: NEIGHBOUR, port: 7 };
    let full = Metadata { endpoint, local_address: Some(LOCALHOST), local_port: Some(9) };

    let received = alice.poll_received(&mut w.reactor, &idle(), Ok((3, full)));
    assert_eq!(received, Poll::Ready(Ok((3, at(LOCALHOST, 9), at(NEIGHBOUR, 7)))));
    assert!(w.reactor.take_notified());

    let lost = Err(RecvError::Truncated);
    let received = alice.poll_received(&mut w.reactor, &idle(), lost);
    assert_eq!(received, Poll::Ready(Err(Error::new(ErrorKind::Other, "truncated"))));
    assert!(!w.reactor.take_notified());

    let (wakes, waker) = counting();
    let none = Err(RecvError::Exhausted);
    assert_eq!(alice.poll_received(&mut w.reactor, &waker, none), Poll::Pending);
    assert!(!w.reactor.take_notified());
    w.reactor.sockets_mut().get_mut::<udp::Socket>(alice.handle()).close();
    assert_eq!(wakes.0.load(Ordering::SeqCst), 1);
}

#[test]
fn a_datagram_of_unknown_destination_is_reported() {
    let mut w = world(4);
    let alice = w.bind(LOCALHOST, 1000).ok().unwrap();
    let endpoint = IpEndpoint { addr: NEIGHBOUR, port: 7 };
    let homeless = Metadata { endpoint, local_address: None, local_port: Some(9) };
    let received = alice.poll_received(&mut w.reactor, &idle(), Ok((3, homeless)));
    assert_eq!(
        received,
        Poll::Ready(Err(Error::new(
            ErrorKind::AddrNotAvailable,
            "udp metadata missing local address"
        )))
    );
    assert!(w.reactor.take_notified());
    let portless = Metadata { endpoint, local_address: Some(LOCALHOST), local_port: None };
    let received = alice.poll_received(&mut w.reactor, &idle(), Ok((3, portless)));
    assert_eq!(
        received,
        Poll::Ready(Err(Error::new(
            ErrorKind::AddrNotAvailable,
            "udp metadata missing local port"
        )))
    );
    let blank = Metadata { endpoint, local_address: None, local_port: None };
    let received = alice.poll_received(&mut w.reactor, &idle(), Ok((3, blank)));
    assert_eq!(
        received,
        Poll::Ready(Err(Error::new(
            ErrorKind::AddrNotAvailable,
            "udp metadata missing local address"
        )))
    );
}

#[test]
fn a_wildcard_socket_has_no_single_address() {
    let mut w = world(4);
    let handle = w.reactor.new_udp_socket();
    let any = UdpSocket::new_any(&mut w.reactor, handle, Some(LOCALHOST), Ok(())).ok().unwrap();
    assert_eq!(any.handle(), handle);
    assert_eq!(
        any.local_addr(),
        Err(Error::new(
            ErrorKind::AddrNotAvailable,
            "wildcard udp socket does not map to a single local socket address"
        ))
    );
    let sent = any.poll_send_to(&mut w.reactor, &idle(), b"x", at(LOCALHOST, 1));
    assert_eq!(sent, Poll::Ready(Err(Error::new(ErrorKind::Other, "unaddressable"))));
}

#[test]
fn a_socket_that_is_not_bound_to_every_port_is_dropped() {
    let mut w = world(4);
    let handle = w.reactor.new_udp_socket();
    let refused = UdpSocket::new_any(&mut w.reactor, handle, None, Err(BindError::InvalidState));
    assert_eq!(failed(refused), Error::new(ErrorKind::Other, "invalid state"));
    assert_eq!(w.sockets(), 0);
}

#[test]
fn a_wildcard_socket_leaves_receiving_to_the_stack() {
    let mut w = world(4);
    let alice = w.bind(LOCALHOST, 1000).ok().unwrap();
    let handle = w.reactor.new_udp_socket();
    let endpoint = smoltcp::wire::IpListenEndpoint { addr: None, port: 2000 };
    let bound = w.reactor.sockets_mut().get_mut::<udp::Socket>(handle).bind(endpoint);
    assert!(bound.is_ok());
    let any = UdpSocket::new_any(&mut w.reactor, handle, None, Ok(())).ok().unwrap();
    let sent = alice.poll_send_to(&mut w.reactor, &idle(), b"hello", at(LOCALHOST, 2000));
    assert_eq!(sent, Poll::Ready(Ok(5)));
    w.run();
    w.reactor.take_notified();

    let mut buf = [0u8; 8];
    let received = any.poll_recv_from_full(&mut w.reactor, &idle(), &mut buf);
    assert_eq!(received, Poll::Ready(Ok(RecvFrom::Ask)));
    let received = any.poll_recv_from(&mut w.reactor, &idle(), &mut buf);
    assert_eq!(received, Poll::Ready(Ok(RecvFrom::Ask)));
    assert_eq!(buf, [0u8; 8]);
    assert!(!w.reactor.take_notified());

    let socket = w.reactor.sockets_mut().get_mut::<udp::Socket>(handle);
    let (size, _) = socket.recv_slice(&mut buf).ok().unwrap();
    assert_eq!(&buf[..size], b"hello");
    let endpoint = IpEndpoint { addr: LOCALHOST, port: 1000 };
    let metadata = Metadata { endpoint, local_address: Some(LOCALHOST), local_port: Some(2000) };
    let received = any.poll_received(&mut w.reactor, &idle(), Ok((size, metadata)));
    assert_eq!(received, Poll::Ready(Ok((5, at(LOCALHOST, 2000), at(LOCALHOST, 1000)))));
    assert!(w.reactor.take_notified());
    let received = any.poll_received_from(&mut w.reactor, &idle(), Ok((size, metadata)));
    assert_eq!(received, Poll::Ready(Ok((5, at(LOCALHOST, 1000)))));

    let sent = any.poll_send_from(
        &mut w.reactor,
        &idle(),
        b"hi",
        at(LOCALHOST, 2000),
        at(LOCALHOST, 1000),
    );
    let local = IpEndpoint { addr: LOCALHOST, port: 2000 };
    assert_eq!(sent, Poll::Ready(Ok(SendFrom::Ask { local, target: endpoint })));
}

#[test]
fn a_receive_without_the_local_address_fails_as_the_whole_one_does() {
    let mut w = world(4);
    let handle = w.reactor.new_udp_socket();
    let any = UdpSocket::new_any(&mut w.reactor, handle, None, Ok(())).ok().unwrap();
    let (wakes, waker) = counting();
    let none = Err(RecvError::Exhausted);
    assert_eq!(any.poll_received_from(&mut w.reactor, &waker, none), Poll::Pending);
    let lost = Err(RecvError::Truncated);
    assert_eq!(
        any.poll_received_from(&mut w.reactor, &waker, lost),
        Poll::Ready(Err(Error::new(ErrorKind::Other, "truncated")))
    );
    let endpoint = IpEndpoint { addr: NEIGHBOUR, port: 7 };
    let portless = Metadata { endpoint, local_address: Some(LOCALHOST), local_port: None };
    assert_eq!(
        any.poll_received_from(&mut w.reactor, &waker, Ok((3, portless))),
        Poll::Ready(Err(Error::new(
            ErrorKind::AddrNotAvailable,
            "udp metadata missing local port"
        )))
    );
    w.reactor.sockets_mut().get_mut::<udp::Socket>(handle).close();
    assert_eq!(wakes.0.load(Ordering::SeqCst), 1);
}

#[test]
fn no_more_datagrams_wait_than_the_buffer_was_made_for() {
    let mut w = world(3);
    let alice = w.bind(LOCALHOST, 1000).ok().unwrap();
    let target = at(LOCALHOST, 2000);
    for _ in 0..3 {
        assert_eq!(alice.poll_send_to(&mut w.reactor, &idle(), b"", target), Poll::Ready(Ok(0)));
    }
    assert_eq!(alice.poll_send_to(&mut w.reactor, &idle(), b"", target), Poll::Pending);
    w.run();
    let data = [0u8; 40];
    assert_eq!(alice.poll_send_to(&mut w.reactor, &idle(), &data, target), Poll::Ready(Ok(40)));
    assert_eq!(alice.poll_send_to(&mut w.reactor, &idle(), &data[..25], target), Poll::Pending);
    assert_eq!(
        alice.poll_send_to(&mut w.reactor, &idle(), &data[..24], target),
        Poll::Ready(Ok(24))
    );
}
