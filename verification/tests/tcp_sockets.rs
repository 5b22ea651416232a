use smoltcp::iface::{Config, Interface, SocketHandle};
use smoltcp::phy::{Loopback, Medium};
use smoltcp::socket::tcp;
use smoltcp::time::Instant;
use smoltcp::wire::{HardwareAddress, IpAddress, IpCidr};
use std::sync::atomic::{AtomicUsize, Ordering};
use std::sync::Arc;
use std::task::{Wake, Waker};
use tokio_smoltcp::addr::{IpAddr, IpEndpoint, IpListenEndpoint, SocketAddr};
use tokio_smoltcp::error::{Error, ErrorKind};
use tokio_smoltcp::poll::Poll;
use tokio_smoltcp::reactor::{BufferSize, Reactor};
use tokio_smoltcp::stack::tcp_layer::ListenError;
use tokio_smoltcp::tcp_socket::{Accepted, TcpListener, TcpStream};

const LOCALHOST: IpAddr = IpAddr::V4(0x7f00_0001);
const LOCALHOST_6: IpAddr = IpAddr::V6(1);

struct Wakes(AtomicUsize);

impl Wake for Wakes {
    fn wake(self: Arc<Self>) {
        self.0.fetch_add(1, Ordering::SeqCst);
    }
}

fn counting() -> (Arc<Wakes>, Waker) {
    let wakes = Arc::new(Wakes(AtomicUsize::new(0)));
    (wakes.clone(), Waker::from(wakes))
}

fn idle() -> Waker {
    counting().1
}

struct World {
    iface: Interface,
    device: Loopback,
    reactor: Reactor,
    now: i64,
}

fn world(tx_size: usize) -> World {
    let mut device = Loopback::new(Medium::Ip);
    let config = Config::new(HardwareAddress::Ip);
    let mut iface = Interface::new(config, &mut device, Instant::from_millis(0));
    iface.update_ip_addrs(|addrs| {
        addrs.push(IpCidr::new(IpAddress::v4(127, 0, 0, 1), 8)).unwrap();
        addrs.push(IpCidr::new(IpAddress::v6(0, 0, 0, 0, 0, 0, 0, 1), 128)).unwrap();
    });
    let reactor = Reactor::new(BufferSize {
        tcp_rx_size: 64,
        tcp_tx_size: tx_size,
        udp_rx_size: 64,
        udp_tx_size: 64,
        udp_rx_meta_size: 4,
        udp_tx_meta_size: 4,
        raw_rx_size: 64,
        raw_tx_size: 64,
        raw_rx_meta_size: 4,
        raw_tx_meta_size: 4,
    });
    World { iface, device, reactor, now: 0 }
}

impl World {
    fn run(&mut self) {
        for _ in 0..40 {
            self.now += 10;
            let now = Instant::from_millis(self.now);
            self.iface.poll(now, &mut self.device, self.reactor.sockets_mut());
        }
    }

    fn sockets(&mut self) -> usize {
        self.reactor.sockets_mut().iter().count()
    }

    fn state(&mut self, handle: SocketHandle) -> tcp::State {
        self.reactor.sockets_mut().get::<tcp::Socket>(handle).state()
    }

    fn listen(&mut self, port: u16) -> TcpListener {
        listen_at(&mut self.reactor, LOCALHOST, port).ok().unwrap()
    }

    fn connect(&mut self, addr: IpAddr, from: u16, to: u16) -> Result<TcpStream, Error> {
        TcpStream::connect(
            &mut self.reactor,
            self.iface.context(),
            IpEndpoint { addr, port: from },
            IpEndpoint { addr, port: to },
        )
    }

    fn pair(&mut self) -> (TcpListener, TcpStream, TcpStream) {
        let mut listener = self.listen(80);
        let client = self.connect(LOCALHOST, 50000, 80).ok().unwrap();
        self.run();
        let server = accepted(listener.poll_accept(&mut self.reactor, &idle())).0;
        (listener, client, server)
    }
}

fn listen_at(reactor: &mut Reactor, addr: IpAddr, port: u16) -> Result<TcpListener, Error> {
    let endpoint = IpListenEndpoint { addr: Some(addr), port };
    TcpListener::new(reactor, endpoint, SocketAddr::new(addr, port))
}

fn accepted(outcome: Poll<Result<Accepted, Error>>) -> (TcpStream, SocketAddr) {
    match outcome {
        Poll::Ready(Ok(Accepted::Connection(stream, peer))) => (stream, peer),
        _ => panic!("no connection was accepted"),
    }
}

fn failed<T>(outcome: Result<T, Error>) -> Error {
    match outcome {
        Ok(_) => panic!("the call succeeded"),
        Err(e) => e,
    }
}

#[test]
fn a_connection_is_made_and_accepted() {
    let mut w = world(64);
    let mut listener = w.listen(80);
    let first = listener.handle();
    let (wakes, waker) = counting();
    assert!(matches!(listener.poll_accept(&mut w.reactor, &waker), Poll::Pending));
    assert!(!w.reactor.take_notified());

    let client = w.connect(LOCALHOST, 50000, 80).ok().unwrap();
    assert!(w.reactor.take_notified());
    assert_eq!(client.poll_connected(&mut w.reactor, &idle()), Poll::Pending);
    w.run();
    assert!(wakes.0.load(Ordering::SeqCst) > 0);
    assert_eq!(client.poll_connected(&mut w.reactor, &idle()), Poll::Ready(Ok(())));

    let (server, peer) = accepted(listener.poll_accept(&mut w.reactor, &waker));
    assert_eq!(peer, SocketAddr::new(LOCALHOST, 50000));
    assert_eq!(server.peer_addr(), Ok(SocketAddr::new(LOCALHOST, 50000)));
    assert_eq!(server.local_addr(), Ok(SocketAddr::new(LOCALHOST, 80)));
    assert_eq!(client.local_addr(), Ok(SocketAddr::new(LOCALHOST, 50000)));
    assert_eq!(client.peer_addr(), Ok(SocketAddr::new(LOCALHOST, 80)));

    assert_eq!(server.handle(), first);
    assert_ne!(listener.handle(), first);
    assert_eq!(w.state(server.handle()), tcp::State::Established);
    assert_eq!(w.state(listener.handle()), tcp::State::Listen);
    assert_eq!(listener.local_addr(), Ok(SocketAddr::new(LOCALHOST, 80)));
    assert_eq!(w.sockets(), 3);
}

#[test]
fn a_listener_accepts_one_connection_after_the_other() {
    let mut w = world(64);
    let (mut listener, _, server) = w.pair();
    let second = w.connect(LOCALHOST, 50001, 80).ok().unwrap();
    w.run();
    let (other, peer) = accepted(listener.poll_accept(&mut w.reactor, &idle()));
    assert_eq!(peer, SocketAddr::new(LOCALHOST, 50001));
    assert_ne!(other.handle(), server.handle());
    assert_eq!(w.state(second.handle()), tcp::State::Established);
}

#[test]
fn a_connection_is_made_over_version_6() {
    let mut w = world(64);
    let mut listener = listen_at(&mut w.reactor, LOCALHOST_6, 80).ok().unwrap();
    let client = w.connect(LOCALHOST_6, 50000, 80).ok().unwrap();
    w.run();
    assert_eq!(client.poll_connected(&mut w.reactor, &idle()), Poll::Ready(Ok(())));
    let (server, peer) = accepted(listener.poll_accept(&mut w.reactor, &idle()));
    assert_eq!(peer, SocketAddr::new(LOCALHOST_6, 50000));
    assert_eq!(server.local_addr(), Ok(SocketAddr::new(LOCALHOST_6, 80)));
}

#[test]
fn octets_arrive_in_the_order_in_which_they_were_written() {
    let mut w = world(64);
    let (_listener, client, server) = w.pair();
    w.reactor.take_notified();
    assert_eq!(client.poll_write(&mut w.reactor, &idle(), b"hello"), Poll::Ready(Ok(5)));
    assert!(w.reactor.take_notified());
    assert_eq!(client.poll_write(&mut w.reactor, &idle(), b" world"), Poll::Ready(Ok(6)));
    w.run();
    let mut buf = [9u8; 7];
    assert_eq!(server.poll_read(&mut w.reactor, &idle(), &mut buf), Poll::Ready(Ok(7)));
    assert_eq!(&buf, b"hello w");
    w.reactor.take_notified();
    assert_eq!(server.poll_read(&mut w.reactor, &idle(), &mut buf), Poll::Ready(Ok(4)));
    assert!(w.reactor.take_notified());
    assert_eq!(&buf, b"orldo w");
    assert_eq!(server.poll_read(&mut w.reactor, &idle(), &mut buf), Poll::Pending);
    assert!(!w.reactor.take_notified());
    assert_eq!(&buf, b"orldo w");
}

#[test]
fn a_reader_is_woken_when_octets_arrive() {
    let mut w = world(64);
    let (_listener, client, server) = w.pair();
    let (wakes, waker) = counting();
    let mut buf = [0u8; 4];
    assert_eq!(server.poll_read(&mut w.reactor, &waker, &mut buf), Poll::Pending);
    assert_eq!(wakes.0.load(Ordering::SeqCst), 0);
    assert_eq!(client.poll_write(&mut w.reactor, &idle(), b"x"), Poll::Ready(Ok(1)));
    w.run();
    assert_eq!(wakes.0.load(Ordering::SeqCst), 1);
}

#[test]
fn a_reader_without_room_reads_nothing() {
    let mut w = world(64);
    let (_listener, client, server) = w.pair();
    assert_eq!(client.poll_write(&mut w.reactor, &idle(), b"x"), Poll::Ready(Ok(1)));
    w.run();
    assert_eq!(server.poll_read(&mut w.reactor, &idle(), &mut []), Poll::Ready(Ok(0)));
    let mut buf = [0u8; 4];
    assert_eq!(server.poll_read(&mut w.reactor, &idle(), &mut buf), Poll::Ready(Ok(1)));
}

#[test]
fn a_writer_waits_for_room() {
    let mut w = world(8);
    let (_listener, client, server) = w.pair();
    let data = [7u8; 20];
    let (wakes, waker) = counting();
    assert_eq!(client.poll_write(&mut w.reactor, &waker, &data), Poll::Ready(Ok(8)));
    w.reactor.take_notified();
    assert_eq!(client.poll_write(&mut w.reactor, &waker, &data[8..]), Poll::Pending);
    assert!(!w.reactor.take_notified());
    w.run();
    assert!(wakes.0.load(Ordering::SeqCst) > 0);
    assert_eq!(client.poll_write(&mut w.reactor, &waker, &data[8..]), Poll::Ready(Ok(8)));
    w.run();
    let mut buf = [0u8; 32];
    assert_eq!(server.poll_read(&mut w.reactor, &idle(), &mut buf), Poll::Ready(Ok(16)));
}

#[test]
fn a_flush_waits_until_everything_is_acknowledged() {
    let mut w = world(64);
    let (_listener, client, _server) = w.pair();
    assert_eq!(client.poll_flush(&mut w.reactor, &idle()), Poll::Ready(Ok(())));
    assert_eq!(client.poll_write(&mut w.reactor, &idle(), b"abc"), Poll::Ready(Ok(3)));
    let (wakes, waker) = counting();
    assert_eq!(client.poll_flush(&mut w.reactor, &waker), Poll::Pending);
    w.run();
    assert!(wakes.0.load(Ordering::SeqCst) > 0);
    assert_eq!(client.poll_flush(&mut w.reactor, &waker), Poll::Ready(Ok(())));
}

#[test]
fn after_a_shutdown_nothing_more_is_written() {
    let mut w = world(64);
    let (_listener, client, server) = w.pair();
    assert_eq!(client.poll_write(&mut w.reactor, &idle(), b"bye"), Poll::Ready(Ok(3)));
    w.reactor.take_notified();
    assert_eq!(client.poll_shutdown(&mut w.reactor, &idle()), Poll::Ready(Ok(())));
    assert!(w.reactor.take_notified());
    assert_eq!(
        client.poll_write(&mut w.reactor, &idle(), b"more"),
        Poll::Ready(Err(Error { kind: ErrorKind::BrokenPipe, message: None }))
    );
    assert_eq!(client.poll_shutdown(&mut w.reactor, &idle()), Poll::Ready(Ok(())));
    assert_eq!(w.state(client.handle()), tcp::State::FinWait1);

    w.run();
    let mut buf = [0u8; 8];
    assert_eq!(server.poll_read(&mut w.reactor, &idle(), &mut buf), Poll::Ready(Ok(3)));
    assert_eq!(server.poll_read(&mut w.reactor, &idle(), &mut buf), Poll::Ready(Ok(0)));
    assert_eq!(server.poll_read(&mut w.reactor, &idle(), &mut buf), Poll::Ready(Ok(0)));

    assert_eq!(server.poll_write(&mut w.reactor, &idle(), b"ok"), Poll::Ready(Ok(2)));
    w.run();
    assert_eq!(client.poll_read(&mut w.reactor, &idle(), &mut buf), Poll::Ready(Ok(2)));
    assert_eq!(&buf[..2], b"ok");
    assert_eq!(client.poll_read(&mut w.reactor, &idle(), &mut buf), Poll::Pending);
    assert_eq!(server.poll_shutdown(&mut w.reactor, &idle()), Poll::Ready(Ok(())));
    assert_eq!(w.state(server.handle()), tcp::State::LastAck);
}

#[test]
fn no_write_succeeds_until_the_end_of_a_connection_that_was_shut_down() {
    let mut w = world(64);
    let (_listener, client, server) = w.pair();
    assert_eq!(client.poll_shutdown(&mut w.reactor, &idle()), Poll::Ready(Ok(())));
    let mut seen = vec![w.state(client.handle())];
    for round in 0..40 {
        if round == 2 {
            assert_eq!(server.poll_shutdown(&mut w.reactor, &idle()), Poll::Ready(Ok(())));
        }
        w.run();
        let state = w.state(client.handle());
        if seen.last() != Some(&state) {
            seen.push(state);
        }
        for stream in [&client, &server] {
            if round >= 2 {
                assert_eq!(
                    stream.poll_write(&mut w.reactor, &idle(), b"more"),
                    Poll::Ready(Err(Error::bare(ErrorKind::BrokenPipe)))
                );
                assert_eq!(stream.poll_flush(&mut w.reactor, &idle()), Poll::Ready(Ok(())));
            }
        }
        assert_eq!(
            client.poll_write(&mut w.reactor, &idle(), b"more"),
            Poll::Ready(Err(Error::bare(ErrorKind::BrokenPipe)))
        );
        assert_eq!(client.poll_shutdown(&mut w.reactor, &idle()), Poll::Ready(Ok(())));
    }
    assert_eq!(
        seen,
        vec![
            tcp::State::FinWait1,
            tcp::State::FinWait2,
            tcp::State::TimeWait,
            tcp::State::Closed
        ]
    );
}

#[test]
fn shutting_down_a_closed_stream_does_nothing() {
    let mut w = world(64);
    let (_listener, client, _server) = w.pair();
    w.reactor.sockets_mut().get_mut::<tcp::Socket>(client.handle()).abort();
    w.reactor.take_notified();
    assert_eq!(client.poll_shutdown(&mut w.reactor, &idle()), Poll::Ready(Ok(())));
    assert!(!w.reactor.take_notified());
    assert_eq!(w.state(client.handle()), tcp::State::Closed);
}

#[test]
fn shutting_down_a_stream_that_is_connecting_closes_it() {
    let mut w = world(64);
    let client = w.connect(LOCALHOST, 50000, 80).ok().unwrap();
    let (wakes, waker) = counting();
    assert_eq!(client.poll_connected(&mut w.reactor, &waker), Poll::Pending);
    assert_eq!(client.poll_shutdown(&mut w.reactor, &idle()), Poll::Ready(Ok(())));
    assert_eq!(wakes.0.load(Ordering::SeqCst), 1);
    assert_eq!(w.state(client.handle()), tcp::State::Closed);
}

#[test]
fn a_reset_connection_is_reported_to_the_reader() {
    let mut w = world(64);
    let (_listener, client, server) = w.pair();
    w.reactor.sockets_mut().get_mut::<tcp::Socket>(client.handle()).abort();
    w.run();
    let mut buf = [0u8; 8];
    assert_eq!(
        server.poll_read(&mut w.reactor, &idle(), &mut buf),
        Poll::Ready(Err(Error::new(ErrorKind::ConnectionReset, "tcp stream closed")))
    );
}

#[test]
fn a_refused_connection_is_reported() {
    let mut w = world(64);
    let client = w.connect(LOCALHOST, 50000, 81).ok().unwrap();
    w.run();
    assert_eq!(
        client.poll_connected(&mut w.reactor, &idle()),
        Poll::Ready(Err(Error::new(ErrorKind::ConnectionAborted, "tcp connect failed")))
    );
}

#[test]
fn connecting_to_nowhere_is_refused_at_once() {
    let mut w = world(64);
    let unaddressable = Error::new(ErrorKind::Other, "unaddressable destination");
    assert_eq!(failed(w.connect(LOCALHOST, 50000, 0)), unaddressable);
    assert_eq!(failed(w.connect(LOCALHOST, 0, 80)), unaddressable);
    assert_eq!(failed(w.connect(IpAddr::V4(0), 50000, 80)), unaddressable);
    assert_eq!(failed(w.connect(IpAddr::V6(0), 50000, 80)), unaddressable);
    let mixed = TcpStream::connect(
        &mut w.reactor,
        w.iface.context(),
        IpEndpoint { addr: LOCALHOST, port: 50000 },
        IpEndpoint { addr: LOCALHOST_6, port: 80 },
    );
    assert_eq!(failed(mixed), unaddressable);
    assert_eq!(w.sockets(), 0);
    assert!(!w.reactor.take_notified());
}

#[test]
fn listening_on_port_zero_is_refused() {
    let mut w = world(64);
    let refused = listen_at(&mut w.reactor, LOCALHOST, 0);
    assert_eq!(failed(refused), Error::new(ErrorKind::Other, "unaddressable destination"));
    assert_eq!(w.sockets(), 0);
}

#[test]
fn a_listener_that_cannot_listen_once_more_keeps_its_socket() {
    let mut w = world(64);
    let endpoint = IpListenEndpoint { addr: None, port: 80 };
    let nowhere = SocketAddr::new(LOCALHOST, 0);
    let mut listener = TcpListener::new(&mut w.reactor, endpoint, nowhere).ok().unwrap();
    let handle = listener.handle();
    let _client = w.connect(LOCALHOST, 50000, 80).ok().unwrap();
    w.run();
    match listener.poll_accept(&mut w.reactor, &idle()) {
        Poll::Ready(Err(e)) => {
            assert_eq!(e, Error::new(ErrorKind::Other, "unaddressable destination"));
        }
        _ => panic!("the listener listens on no port"),
    }
    assert_eq!(listener.handle(), handle);
    assert_eq!(w.sockets(), 2);
}

fn wildcard(w: &mut World, addr: Option<IpAddr>) -> TcpListener {
    let handle = w.reactor.new_tcp_socket();
    w.reactor.sockets_mut().get_mut::<tcp::Socket>(handle).listen(80).unwrap();
    TcpListener::new_any(&mut w.reactor, handle, addr, Ok(())).ok().unwrap()
}

#[test]
fn a_wildcard_listener_has_no_single_address() {
    let mut w = world(64);
    let listener = wildcard(&mut w, None);
    assert_eq!(
        listener.local_addr(),
        Err(Error::new(
            ErrorKind::AddrNotAvailable,
            "wildcard tcp listener does not map to a single local socket address"
        ))
    );
}

#[test]
fn a_wildcard_listener_asks_for_its_next_socket() {
    let mut w = world(64);
    let mut listener = wildcard(&mut w, Some(LOCALHOST));
    let first = listener.handle();
    let _client = w.connect(LOCALHOST, 50000, 80).ok().unwrap();
    w.run();
    let fresh = match listener.poll_accept(&mut w.reactor, &idle()) {
        Poll::Ready(Ok(Accepted::Relisten { handle, addr })) => {
            assert_eq!(addr, Some(LOCALHOST));
            handle
        }
        _ => panic!("the listener asks for a socket"),
    };
    assert_eq!(w.state(fresh), tcp::State::Closed);
    assert_eq!(listener.handle(), first);

    let refused = TcpStream::accept(
        &mut listener,
        &mut w.reactor,
        fresh,
        Err(ListenError::InvalidState),
    );
    assert_eq!(failed(refused), Error::new(ErrorKind::Other, "invalid state"));
    assert_eq!(listener.handle(), first);
    assert_eq!(w.sockets(), 2);

    let fresh = w.reactor.new_tcp_socket();
    let (stream, peer) =
        TcpStream::accept(&mut listener, &mut w.reactor, fresh, Ok(())).ok().unwrap();
    assert_eq!(peer, SocketAddr::new(LOCALHOST, 50000));
    assert_eq!(stream.handle(), first);
    assert_eq!(listener.handle(), fresh);
}

#[test]
fn a_socket_that_does_not_take_every_port_is_dropped() {
    let mut w = world(64);
    let handle = w.reactor.new_tcp_socket();
    let refused =
        TcpListener::new_any(&mut w.reactor, handle, None, Err(ListenError::Unaddressable));
    assert_eq!(failed(refused), Error::new(ErrorKind::Other, "unaddressable destination"));
    assert_eq!(w.sockets(), 0);
}

#[test]
fn incoming_connections_come_without_end() {
    let mut w = world(64);
    let mut incoming = w.listen(80).incoming();
    assert!(matches!(incoming.poll_next(&mut w.reactor, &idle()), Poll::Pending));
    for port in 50000..50003 {
        let _client = w.connect(LOCALHOST, port, 80).ok().unwrap();
        w.run();
        match incoming.poll_next(&mut w.reactor, &idle()) {
            Poll::Ready(Some(Ok(Accepted::Connection(stream, _)))) => {
                assert_eq!(stream.peer_addr(), Ok(SocketAddr::new(LOCALHOST, port)));
            }
            _ => panic!("a connection is there"),
        }
        assert!(matches!(incoming.poll_next(&mut w.reactor, &idle()), Poll::Pending));
    }
    assert_eq!(incoming.listener_mut().local_addr(), Ok(SocketAddr::new(LOCALHOST, 80)));
}

#[test]
fn a_reader_and_a_writer_are_woken_apart() {
    let mut w = world(4);
    let (_listener, client, server) = w.pair();
    let (reads, reader) = counting();
    let (writes, writer) = counting();
    let mut buf = [0u8; 4];
    assert_eq!(client.poll_write(&mut w.reactor, &idle(), b"full"), Poll::Ready(Ok(4)));
    assert_eq!(client.poll_write(&mut w.reactor, &writer, b"x"), Poll::Pending);
    assert_eq!(client.poll_read(&mut w.reactor, &reader, &mut buf), Poll::Pending);
    w.run();
    assert!(writes.0.load(Ordering::SeqCst) > 0);
    assert_eq!(reads.0.load(Ordering::SeqCst), 0);
    assert_eq!(server.poll_write(&mut w.reactor, &idle(), b"y"), Poll::Ready(Ok(1)));
    w.run();
    assert_eq!(reads.0.load(Ordering::SeqCst), 1);
}

#[test]
fn a_released_socket_is_gone() {
    let mut w = world(64);
    let listener = w.listen(80);
    assert_eq!(w.sockets(), 1);
    w.reactor.release(listener.handle());
    assert_eq!(w.sockets(), 0);
}

#[test]
fn many_connections_have_sockets_of_their_own() {
    let mut w = world(64);
    let mut listener = w.listen(80);
    let mut clients = Vec::new();
    let mut streams = Vec::new();
    for from in 50000..50004 {
        clients.push(w.connect(LOCALHOST, from, 80).ok().unwrap());
        w.run();
        let (stream, peer) = accepted(listener.poll_accept(&mut w.reactor, &idle()));
        assert_eq!(peer, SocketAddr::new(LOCALHOST, from));
        assert!(matches!(listener.poll_accept(&mut w.reactor, &idle()), Poll::Pending));
        streams.push(stream);
    }
    for (i, stream) in streams.iter().enumerate() {
        assert_ne!(stream.handle(), listener.handle());
        for other in &streams[..i] {
            assert_ne!(stream.handle(), other.handle());
        }
    }
    assert_eq!(w.sockets(), 9);
}

#[test]
fn a_stream_is_read_in_its_order_while_more_arrives() {
    let mut w = world(64);
    let (_listener, client, server) = w.pair();
    let mut written = Vec::new();
    let mut read = Vec::new();
    for round in 0..20u8 {
        let data = [round, 100 + round, 200 + round];
        if let Poll::Ready(Ok(n)) = client.poll_write(&mut w.reactor, &idle(), &data) {
            written.extend_from_slice(&data[..n]);
        }
        w.run();
        let mut buf = [0u8; 2];
        if let Poll::Ready(Ok(n)) = server.poll_read(&mut w.reactor, &idle(), &mut buf) {
            read.extend_from_slice(&buf[..n]);
        }
    }
    assert_eq!(written.len(), 60);
    assert_eq!(read, &written[..40]);
    let mut buf = [0u8; 64];
    assert_eq!(server.poll_read(&mut w.reactor, &idle(), &mut buf), Poll::Ready(Ok(20)));
    assert_eq!(&buf[..20], &written[40..]);
}
