use smoltcp::iface::{Config, Interface};
use smoltcp::phy::{ChecksumCapabilities, Loopback, Medium};
use smoltcp::socket::{raw, tcp, udp};
use smoltcp::time::Instant;
use smoltcp::wire::{
    HardwareAddress, IpAddress, IpCidr, IpProtocol, IpVersion, Ipv4Address, Ipv4Packet, Ipv4Repr,
};
use std::sync::atomic::{AtomicUsize, Ordering};
use std::sync::Arc;
use std::task::{Wake, Waker};
use tokio_smoltcp::error::{Error, ErrorKind};
use tokio_smoltcp::poll::Poll;
use tokio_smoltcp::raw_socket::RawSocket;
use tokio_smoltcp::reactor::{BufferSize, Reactor};
use tokio_smoltcp::stack::raw_layer;

const EXPERIMENT: u8 = 253;

struct Wakes(AtomicUsize);

impl Wake for Wakes {
    fn wake(self: Arc<Self>) {
        self.0.fetch_add(1, Ordering::SeqCst);
    }
}

fn counting() -> (Arc<Wakes>, Waker) {
    let wakes = Arc::new(Wakes(AtomicUsize::new(0)));
    (wakes.clone(), Waker::from(wakes))
}

fn idle() -> Waker {
    counting().1
}

struct World {
    iface: Interface,
    device: Loopback,
    reactor: Reactor,
    now: i64,
}

fn world(tx_packets: usize) -> World {
    let mut device = Loopback::new(Medium::Ip);
    let config = Config::new(HardwareAddress::Ip);
    let mut iface = Interface::new(config, &mut device, Instant::from_millis(0));
    iface.update_ip_addrs(|addrs| {
        addrs.push(IpCidr::new(IpAddress::v4(127, 0, 0, 1), 8)).unwrap();
    });
    let reactor = Reactor::new(BufferSize {
        tcp_rx_size: 64,
        tcp_tx_size: 64,
        udp_rx_size: 64,
        udp_tx_size: 64,
        udp_rx_meta_size: 4,
        udp_tx_meta_size: 4,
        raw_rx_size: 256,
        raw_tx_size: 256,
        raw_rx_meta_size: 4,
        raw_tx_meta_size: tx_packets,
    });
    World { iface, device, reactor, now: 0 }
}

impl World {
    fn run(&mut self) {
        for _ in 0..10 {
            self.now += 10;
            let now = Instant::from_millis(self.now);
            self.iface.poll(now, &mut self.device, self.reactor.sockets_mut());
        }
    }

    fn socket(&mut self) -> RawSocket {
        RawSocket::new(&mut self.reactor, raw_layer::IpVersion::Ipv4, EXPERIMENT).ok().unwrap()
    }
}

fn packet(payload: &[u8]) -> Vec<u8> {
    let repr = Ipv4Repr {
        src_addr: Ipv4Address::new(127, 0, 0, 1),
        dst_addr: Ipv4Address::new(127, 0, 0, 1),
        next_header: IpProtocol::from(EXPERIMENT),
        payload_len: payload.len(),
        hop_limit: 64,
    };
    let mut bytes = vec![0u8; repr.buffer_len() + payload.len()];
    let mut packet = Ipv4Packet::new_unchecked(&mut bytes);
    repr.emit(&mut packet, &ChecksumCapabilities::default());
    packet.payload_mut().copy_from_slice(payload);
    bytes
}

#[test]
fn a_raw_socket_is_made_for_one_protocol() {
    let mut w = world(4);
    let socket = w.socket();
    let inner = w.reactor.sockets_mut().get::<raw::Socket>(socket.handle());
    assert_eq!(inner.ip_version(), IpVersion::Ipv4);
    assert_eq!(inner.ip_protocol(), IpProtocol::from(EXPERIMENT));
    let six = RawSocket::new(&mut w.reactor, raw_layer::IpVersion::Ipv6, 1).ok().unwrap();
    let inner = w.reactor.sockets_mut().get::<raw::Socket>(six.handle());
    assert_eq!(inner.ip_version(), IpVersion::Ipv6);
    assert_eq!(inner.ip_protocol(), IpProtocol::Icmp);
}

#[test]
fn packets_travel_with_their_headers() {
    let mut w = world(4);
    let socket = w.socket();
    let (first, second) = (packet(b"one"), packet(b"second"));
    assert_eq!(socket.poll_send(&mut w.reactor, &idle(), &first), Poll::Ready(Ok(23)));
    assert!(w.reactor.take_notified());
    assert_eq!(socket.poll_send(&mut w.reactor, &idle(), &second), Poll::Ready(Ok(26)));
    w.run();
    w.reactor.take_notified();
    let mut buf = [9u8; 30];
    assert_eq!(socket.poll_recv(&mut w.reactor, &idle(), &mut buf), Poll::Ready(Ok(23)));
    assert_eq!(&buf[20..24], b"one\x09");
    assert_eq!(buf[9], EXPERIMENT);
    assert_eq!(socket.poll_recv(&mut w.reactor, &idle(), &mut buf), Poll::Ready(Ok(26)));
    assert_eq!(&buf[20..26], b"second");
    assert!(!w.reactor.take_notified());
}

#[test]
fn a_packet_that_is_too_long_for_the_buffer_is_lost() {
    let mut w = world(4);
    let socket = w.socket();
    assert_eq!(socket.poll_send(&mut w.reactor, &idle(), &packet(b"x")), Poll::Ready(Ok(21)));
    w.run();
    let mut buf = [9u8; 20];
    assert_eq!(
        socket.poll_recv(&mut w.reactor, &idle(), &mut buf),
        Poll::Ready(Err(Error::new(ErrorKind::Other, "truncated")))
    );
    assert_eq!(buf, [9u8; 20]);
    assert_eq!(socket.poll_recv(&mut w.reactor, &idle(), &mut buf), Poll::Pending);
}

#[test]
fn of_two_tasks_that_wait_for_packets_the_latest_is_woken() {
    let mut w = world(4);
    let socket = w.socket();
    let (first, waker1) = counting();
    let (second, waker2) = counting();
    let mut buf = [0u8; 30];
    assert_eq!(socket.poll_recv(&mut w.reactor, &waker1, &mut buf), Poll::Pending);
    assert_eq!(socket.poll_recv(&mut w.reactor, &waker2, &mut buf), Poll::Pending);
    assert_eq!(socket.poll_send(&mut w.reactor, &idle(), &packet(b"x")), Poll::Ready(Ok(21)));
    w.run();
    assert_eq!(first.0.load(Ordering::SeqCst), 0);
    assert_eq!(second.0.load(Ordering::SeqCst), 1);
}

#[test]
fn of_two_tasks_that_wait_to_send_packets_the_latest_is_woken() {
    let mut w = world(1);
    let socket = w.socket();
    let data = packet(b"x");
    assert_eq!(socket.poll_send(&mut w.reactor, &idle(), &data), Poll::Ready(Ok(21)));
    w.reactor.take_notified();
    let (first, waker1) = counting();
    let (second, waker2) = counting();
    assert_eq!(socket.poll_send(&mut w.reactor, &waker1, &data), Poll::Pending);
    assert_eq!(socket.poll_send(&mut w.reactor, &waker2, &data), Poll::Pending);
    assert!(!w.reactor.take_notified());
    w.run();
    assert_eq!(first.0.load(Ordering::SeqCst), 0);
    assert_eq!(second.0.load(Ordering::SeqCst), 1);
    assert_eq!(socket.poll_send(&mut w.reactor, &idle(), &data), Poll::Ready(Ok(21)));
}

#[test]
fn a_packet_above_the_capacity_is_never_sent() {
    let mut w = world(4);
    let socket = w.socket();
    assert_eq!(socket.poll_send(&mut w.reactor, &idle(), &[0u8; 257]), Poll::Pending);
    assert_eq!(socket.poll_send(&mut w.reactor, &idle(), &[0u8; 256]), Poll::Ready(Ok(256)));
}

#[test]
fn sockets_of_one_reactor_have_places_of_their_own() {
    let mut w = world(4);
    let a = w.socket();
    let b = w.socket();
    let c = w.reactor.new_tcp_socket();
    let d = w.reactor.new_udp_socket();
    assert_ne!(a.handle(), b.handle());
    assert_ne!(b.handle(), c);
    assert_ne!(c, d);
    w.reactor.release(b.handle());
    assert_eq!(w.reactor.sockets_mut().iter().count(), 3);
    let e = w.socket();
    assert_ne!(e.handle(), a.handle());
    assert_ne!(e.handle(), c);
    assert_ne!(e.handle(), d);
}

#[test]
fn a_notification_is_taken_once() {
    let mut w = world(4);
    assert!(!w.reactor.take_notified());
    w.reactor.notify();
    w.reactor.notify();
    assert!(w.reactor.take_notified());
    assert!(!w.reactor.take_notified());
}

#[test]
fn buffers_of_every_size_are_judged() {
    let small = BufferSize {
        tcp_rx_size: 0x4000_0000,
        tcp_tx_size: isize::MAX as usize,
        udp_rx_size: isize::MAX as usize,
        udp_tx_size: isize::MAX as usize,
        udp_rx_meta_size: isize::MAX as usize / 256,
        udp_tx_meta_size: isize::MAX as usize / 256,
        raw_rx_size: isize::MAX as usize,
        raw_tx_size: isize::MAX as usize,
        raw_rx_meta_size: isize::MAX as usize / 256,
        raw_tx_meta_size: isize::MAX as usize / 256,
    };
    assert!(small.is_feasible());
    assert!(!BufferSize { tcp_rx_size: 0x4000_0001, ..small }.is_feasible());
    assert!(!BufferSize { udp_tx_size: isize::MAX as usize + 1, ..small }.is_feasible());
    assert!(!BufferSize { raw_rx_meta_size: isize::MAX as usize / 256 + 1, ..small }.is_feasible());
}

#[test]
fn sockets_get_the_buffers_of_their_reactor() {
    let mut reactor = Reactor::new(BufferSize {
        tcp_rx_size: 1,
        tcp_tx_size: 2,
        udp_rx_size: 3,
        udp_tx_size: 4,
        udp_rx_meta_size: 5,
        udp_tx_meta_size: 6,
        raw_rx_size: 7,
        raw_tx_size: 8,
        raw_rx_meta_size: 9,
        raw_tx_meta_size: 10,
    });
    let t = reactor.new_tcp_socket();
    let u = reactor.new_udp_socket();
    let r = reactor.new_raw_socket(raw_layer::IpVersion::Ipv4, EXPERIMENT);
    let sockets = reactor.sockets_mut();
    let t = sockets.get::<tcp::Socket>(t);
    assert_eq!((t.recv_capacity(), t.send_capacity()), (1, 2));
    let u = sockets.get::<udp::Socket>(u);
    assert_eq!((u.payload_recv_capacity(), u.payload_send_capacity()), (3, 4));
    assert_eq!((u.packet_recv_capacity(), u.packet_send_capacity()), (5, 6));
    let r = sockets.get::<raw::Socket>(r);
    assert_eq!((r.payload_recv_capacity(), r.payload_send_capacity()), (7, 8));
    assert_eq!((r.packet_recv_capacity(), r.packet_send_capacity()), (9, 10));
}

#[test]
fn no_more_packets_wait_than_the_buffer_was_made_for() {
    let mut w = world(2);
    let socket = w.socket();
    assert_eq!(socket.poll_send(&mut w.reactor, &idle(), &[0u8; 200]), Poll::Ready(Ok(200)));
    assert_eq!(socket.poll_send(&mut w.reactor, &idle(), &[0u8; 57]), Poll::Pending);
    assert_eq!(socket.poll_send(&mut w.reactor, &idle(), &[0u8; 56]), Poll::Ready(Ok(56)));
    assert_eq!(socket.poll_send(&mut w.reactor, &idle(), &[]), Poll::Pending);
}
