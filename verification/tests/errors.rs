use smoltcp::socket::{raw, tcp, udp};
use tokio_smoltcp::error::{map_err, Error, ErrorKind, Refusal};
use tokio_smoltcp::stack::{raw_layer, tcp_layer, udp_layer};

fn other(message: String) -> Error {
    Error { kind: ErrorKind::Other, message: Some(message) }
}

#[test]
fn refusals_of_tcp_sockets_read_as_the_stack_writes_them() {
    assert_eq!(
        map_err(tcp_layer::ListenError::InvalidState),
        other(tcp::ListenError::InvalidState.to_string())
    );
    assert_eq!(
        map_err(tcp_layer::ListenError::Unaddressable),
        other(tcp::ListenError::Unaddressable.to_string())
    );
    assert_eq!(
        map_err(tcp_layer::ConnectError::InvalidState),
        other(tcp::ConnectError::InvalidState.to_string())
    );
    assert_eq!(
        map_err(tcp_layer::ConnectError::Unaddressable),
        other(tcp::ConnectError::Unaddressable.to_string())
    );
    assert_eq!(
        map_err(tcp_layer::SendError::InvalidState),
        other(tcp::SendError::InvalidState.to_string())
    );
    assert_eq!(
        map_err(tcp_layer::RecvError::InvalidState),
        other(tcp::RecvError::InvalidState.to_string())
    );
    assert_eq!(
        map_err(tcp_layer::RecvError::Finished),
        other(tcp::RecvError::Finished.to_string())
    );
}

#[test]
fn refusals_of_udp_sockets_read_as_the_stack_writes_them() {
    assert_eq!(
        map_err(udp_layer::BindError::InvalidState),
        other(udp::BindError::InvalidState.to_string())
    );
    assert_eq!(
        map_err(udp_layer::BindError::Unaddressable),
        other(udp::BindError::Unaddressable.to_string())
    );
    assert_eq!(
        map_err(udp_layer::SendError::Unaddressable),
        other(udp::SendError::Unaddressable.to_string())
    );
    assert_eq!(
        map_err(udp_layer::SendError::BufferFull),
        other(udp::SendError::BufferFull.to_string())
    );
    assert_eq!(
        map_err(udp_layer::RecvError::Exhausted),
        other(udp::RecvError::Exhausted.to_string())
    );
    assert_eq!(
        map_err(udp_layer::RecvError::Truncated),
        other(udp::RecvError::Truncated.to_string())
    );
}

#[test]
fn refusals_of_raw_sockets_read_as_the_stack_writes_them() {
    assert_eq!(
        map_err(raw_layer::SendError::BufferFull),
        other(raw::SendError::BufferFull.to_string())
    );
    assert_eq!(
        map_err(raw_layer::RecvError::Exhausted),
        other(raw::RecvError::Exhausted.to_string())
    );
    assert_eq!(
        map_err(raw_layer::RecvError::Truncated),
        other(raw::RecvError::Truncated.to_string())
    );
}

#[test]
fn a_refusal_has_a_reason_in_words() {
    assert_eq!(tcp_layer::RecvError::Finished.describe(), "operation finished");
    assert_eq!(udp_layer::BindError::Unaddressable.describe(), "unaddressable");
    assert_eq!(raw_layer::SendError::BufferFull.describe(), "buffer full");
}

#[test]
fn an_error_may_be_only_a_kind() {
    let error = Error::bare(ErrorKind::BrokenPipe);
    assert_eq!(error.kind, ErrorKind::BrokenPipe);
    assert_eq!(error.message, None);
    let error = Error::new(ErrorKind::ConnectionReset, "gone");
    assert_eq!(error.kind, ErrorKind::ConnectionReset);
    assert_eq!(error.message, Some("gone".to_string()));
}

#[test]
fn an_error_reads_as_the_standard_library_writes_it() {
    let kinds = [
        (ErrorKind::Other, std::io::ErrorKind::Other),
        (ErrorKind::AddrNotAvailable, std::io::ErrorKind::AddrNotAvailable),
        (ErrorKind::ConnectionAborted, std::io::ErrorKind::ConnectionAborted),
        (ErrorKind::ConnectionReset, std::io::ErrorKind::ConnectionReset),
        (ErrorKind::BrokenPipe, std::io::ErrorKind::BrokenPipe),
    ];
    for (kind, std_kind) in kinds {
        let std_error = std::io::Error::from(std_kind);
        assert_eq!(Error::bare(kind).describe(), std_error.to_string());
        let std_error = std::io::Error::new(std_kind, "gone");
        assert_eq!(Error::new(kind, "gone").describe(), std_error.to_string());
    }
}

#[test]
fn an_error_that_is_reported_twice_stays_the_same() {
    let once = map_err(tcp_layer::ListenError::Unaddressable);
    let twice = map_err(map_err(tcp_layer::ListenError::Unaddressable));
    assert_eq!(once, twice);
    assert_eq!(twice.describe(), "unaddressable destination");
    let reported = map_err(Error::bare(ErrorKind::BrokenPipe));
    assert_eq!(reported, Error::new(ErrorKind::Other, "broken pipe"));
}
