# tokio_smoltcp

TCP, UDP and raw sockets for asynchronous tasks, on top of the `smoltcp` network stack.

- `src/` is the library, verified with Verus. `reactor` owns the sockets of the stack;
  `tcp_socket`, `udp_socket` and `raw_socket` make one attempt at an operation per call, and note
  the task that waits where the attempt has to be repeated. `stack` says what is believed of
  `smoltcp`; `laws` says what holds over more than one call, `history` what such calls are.
- `app/` turns the attempts into futures and streams: locks, `AsyncRead`, `AsyncWrite`, `Stream`.
- `tests/` runs the library over a loopback device.

Sockets that take every port of an address need calls that released versions of `smoltcp` do not
have. The library takes the answers of such calls as arguments; `app/` makes them through a trait.
