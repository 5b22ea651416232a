//! Histories: what is done through a socket step by step, with the work of the stack in between.
use crate::addr::SocketAddr;
use crate::error::ErrorView;
use crate::poll::Poll;
use crate::raw_socket;
use crate::reactor::ReactorView;
use crate::stack::raw_layer::RawView;
use crate::stack::tcp_layer::ListenError;
use crate::stack::udp_layer::{Outgoing, Received, SendError, UdpView};
use crate::tcp_socket::{
    accept_answered, accept_attempt, after_read, after_write, read_into, read_outcome,
    write_outcome, Accepted, TcpListener, TcpStream,
};
use crate::udp_socket::{left, offered};
use smoltcp::iface::SocketHandle;
use vstd::prelude::*;

verus! {

/// One step of a queue: some items leave it, and some are added.
pub struct Flow<A> {
    pub before: Seq<A>,
    pub out: Seq<A>,
    pub added: Seq<A>,
    pub after: Seq<A>,
}

impl<A> Flow<A> {
    /// Whether the items leave at the front and are added at the back, none lost and none twice.
    pub open spec fn in_order(self) -> bool {
        self.before + self.added == self.out + self.after
    }
}

/// What leaves a queue over a history, in its order.
pub open spec fn all_out<A>(flows: Seq<Flow<A>>) -> Seq<A>
    decreases flows.len(),
{
    if flows.len() == 0 {
        Seq::empty()
    } else {
        all_out(flows.drop_last()) + flows.last().out
    }
}

/// What is added to a queue over a history, in its order.
pub open spec fn all_added<A>(flows: Seq<Flow<A>>) -> Seq<A>
    decreases flows.len(),
{
    if flows.len() == 0 {
        Seq::empty()
    } else {
        all_added(flows.drop_last()) + flows.last().added
    }
}

/// Whether each step of a queue is in order and goes on where the step before it ended.
pub open spec fn flowing<A>(flows: Seq<Flow<A>>) -> bool {
    &&& forall|k: int| 0 <= k < flows.len() ==> (#[trigger] flows[k]).in_order()
    &&& forall|j: int, k: int|
        0 <= j < k < flows.len() && k == j + 1 ==> (#[trigger] flows[k]).before == (
        #[trigger] flows[j]).after
}

/// If each step of a queue is in order, then the whole history is.
pub proof fn flows_stay_in_order<A>(flows: Seq<Flow<A>>)
    requires
        flows.len() > 0,
        flowing(flows),
    ensures
        flows[0].before + all_added(flows) == all_out(flows) + flows.last().after,
    decreases flows.len(),
{
    let last = flows[flows.len() - 1];
    assert(last.in_order());
    let earlier = flows.drop_last();
    if earlier.len() == 0 {
        assert(all_added(earlier) =~= Seq::<A>::empty());
        assert(all_out(earlier) =~= Seq::<A>::empty());
        assert(all_added(flows) =~= last.added);
        assert(all_out(flows) =~= last.out);
    } else {
        assert forall|k: int| 0 <= k < earlier.len() implies (#[trigger] earlier[k]).in_order() by {
            assert(flows[k].in_order());
        }
        assert forall|j: int, k: int| 0 <= j < k < earlier.len() && k == j + 1 implies (
        #[trigger] earlier[k]).before == (#[trigger] earlier[j]).after by {
            assert(flows[k].before == flows[j].after);
        }
        flows_stay_in_order(earlier);
        assert(last.before == flows[flows.len() - 2].after);
        let first = flows[0].before;
        assert(first + all_added(flows) =~= (first + all_added(earlier)) + last.added);
        assert((all_out(earlier) + last.before) + last.added =~= all_out(earlier) + (last.before
            + last.added));
        assert(all_out(earlier) + (last.out + last.after) =~= all_out(flows) + last.after);
    }
}

/// An attempt to read into `buf` through a stream, after which octets arrive. An attempt with an
/// empty buffer reads nothing, so that there may be arrivals alone.
pub struct Reading {
    pub before: ReactorView,
    pub buf: Seq<u8>,
    pub task: int,
    pub arrived: Seq<u8>,
    pub after: ReactorView,
}

impl Reading {
    /// Whether this is what happened: the attempt was made, and then the stack added what arrived
    /// behind what was there. Whatever else it did is left open.
    pub open spec fn happened(self, handle: SocketHandle) -> bool {
        &&& self.before.has_tcp(handle)
        &&& self.buf.len() <= usize::MAX
        &&& self.after.tcp_at(handle).rx == after_read(
            self.before,
            handle,
            self.buf.len(),
            self.task,
        ).tcp_at(handle).rx + self.arrived
    }

    /// What the reader got: as many octets of the buffer as the reader was told.
    pub open spec fn got(self, handle: SocketHandle) -> Seq<u8> {
        let socket = self.before.tcp_at(handle);
        match read_outcome(socket, self.buf.len()) {
            Poll::Ready(Ok(n)) => read_into(socket, self.buf).take(n as int),
            _ => Seq::empty(),
        }
    }

    /// The step as one of the queue of received octets.
    pub open spec fn flow(self, handle: SocketHandle) -> Flow<u8> {
        Flow {
            before: self.before.tcp_at(handle).rx,
            out: self.got(handle),
            added: self.arrived,
            after: self.after.tcp_at(handle).rx,
        }
    }

    /// A read takes from the front, and what arrives goes to the back.
    pub proof fn is_in_order(self, handle: SocketHandle)
        requires
            self.happened(handle),
        ensures
            self.flow(handle).in_order(),
    {
        let rx = self.before.tcp_at(handle).rx;
        let n = self.before.tcp_at(handle).gives(self.buf.len()) as int;
        let rest = after_read(self.before, handle, self.buf.len(), self.task).tcp_at(handle).rx;
        assert(self.got(handle) =~= rx.take(n));
        assert(rest =~= rx.skip(n));
        assert(rx + self.arrived =~= rx.take(n) + (rx.skip(n) + self.arrived));
    }
}

/// A history of reading as one of the queue of received octets.
pub open spec fn reading_flows(steps: Seq<Reading>, handle: SocketHandle) -> Seq<Flow<u8>> {
    Seq::new(steps.len(), |k: int| steps[k].flow(handle))
}

/// An attempt to write `data` through a stream, after which the stack is done with `sent` octets:
/// they have been sent and acknowledged.
pub struct Writing {
    pub before: ReactorView,
    pub data: Seq<u8>,
    pub task: int,
    pub sent: nat,
    pub after: ReactorView,
}

impl Writing {
    /// The octets that wait once the attempt has been made.
    pub open spec fn queued(self, handle: SocketHandle) -> Seq<u8> {
        after_write(self.before, handle, self.data, self.task).tcp_at(handle).tx
    }

    /// Whether this is what happened: the attempt was made, and then the stack removed octets from
    /// the front. Whatever else it did is left open.
    pub open spec fn happened(self, handle: SocketHandle) -> bool {
        &&& self.before.has_tcp(handle)
        &&& self.data.len() <= usize::MAX
        &&& self.sent <= self.queued(handle).len()
        &&& self.after.tcp_at(handle).tx == self.queued(handle).skip(self.sent as int)
    }

    /// Which octets were taken from the writer: as many of the data as the writer was told.
    pub open spec fn taken(self, handle: SocketHandle) -> Seq<u8> {
        match write_outcome(self.before.tcp_at(handle), self.data.len()) {
            Poll::Ready(Ok(n)) => self.data.take(n as int),
            _ => Seq::empty(),
        }
    }

    /// The step as one of the queue of octets to be sent.
    pub open spec fn flow(self, handle: SocketHandle) -> Flow<u8> {
        Flow {
            before: self.before.tcp_at(handle).tx,
            out: self.queued(handle).take(self.sent as int),
            added: self.taken(handle),
            after: self.after.tcp_at(handle).tx,
        }
    }

    /// A write adds to the back, and the stack takes from the front.
    pub proof fn is_in_order(self, handle: SocketHandle)
        requires
            self.happened(handle),
        ensures
            self.flow(handle).in_order(),
    {
        let tx = self.queued(handle);
        let n = self.sent as int;
        assert(tx =~= self.before.tcp_at(handle).tx + self.taken(handle));
        assert(tx =~= tx.take(n) + tx.skip(n));
    }
}

/// A history of writing as one of the queue of octets to be sent.
pub open spec fn writing_flows(steps: Seq<Writing>, handle: SocketHandle) -> Seq<Flow<u8>> {
    Seq::new(steps.len(), |k: int| steps[k].flow(handle))
}

/// An attempt to receive a datagram, after which datagrams arrive.
pub struct Receiving {
    pub before: UdpView,
    pub arrived: Seq<Received>,
    pub after: UdpView,
}

impl Receiving {
    /// Whether this is what happened: the attempt was made, and then the stack added what arrived
    /// behind what was there.
    pub open spec fn happened(self) -> bool {
        self.after.rx == left(self.before).rx + self.arrived
    }

    /// The step as one of the queue of received datagrams.
    pub open spec fn flow(self) -> Flow<Received> {
        Flow {
            before: self.before.rx,
            out: if self.before.rx.len() == 0 {
                Seq::empty()
            } else {
                seq![self.before.rx[0]]
            },
            added: self.arrived,
            after: self.after.rx,
        }
    }

    /// A receive takes from the front, and what arrives goes to the back.
    pub proof fn is_in_order(self)
        requires
            self.happened(),
        ensures
            self.flow().in_order(),
    {
        let rest = left(self.before).rx;
        assert(self.before.rx =~= self.flow().out + rest);
        assert(self.before.rx + self.arrived =~= self.flow().out + (rest + self.arrived));
    }
}

/// A history of receiving as one of the queue of received datagrams.
pub open spec fn receiving_flows(steps: Seq<Receiving>) -> Seq<Flow<Received>> {
    Seq::new(steps.len(), |k: int| steps[k].flow())
}

/// An attempt to send a datagram, after which the stack has sent `sent` of those that wait.
pub struct Sending {
    pub before: UdpView,
    pub datagram: Outgoing,
    pub tx_room: Set<nat>,
    pub sent: nat,
    pub after: UdpView,
}

impl Sending {
    /// What becomes of the attempt.
    pub open spec fn result(self) -> Result<(), SendError> {
        self.before.send_result(self.datagram.data.len(), self.datagram.target)
    }

    /// The socket once the attempt has been made.
    pub open spec fn queued(self) -> UdpView {
        offered(self.before, self.datagram, self.result(), self.tx_room)
    }

    /// Whether this is what happened: the attempt was made, and then the stack removed datagrams
    /// from the front.
    pub open spec fn happened(self) -> bool {
        &&& self.sent <= self.queued().tx.len()
        &&& self.after.tx == self.queued().tx.skip(self.sent as int)
    }

    /// The step as one of the queue of datagrams to be sent.
    pub open spec fn flow(self) -> Flow<Outgoing> {
        Flow {
            before: self.before.tx,
            out: self.queued().tx.take(self.sent as int),
            added: if self.result() is Ok {
                seq![self.datagram]
            } else {
                Seq::empty()
            },
            after: self.after.tx,
        }
    }

    /// A send adds to the back, and the stack takes from the front.
    pub proof fn is_in_order(self)
        requires
            self.happened(),
        ensures
            self.flow().in_order(),
    {
        let tx = self.queued().tx;
        let n = self.sent as int;
        assert(tx =~= self.before.tx + self.flow().added);
        assert(tx =~= tx.take(n) + tx.skip(n));
    }
}

/// A history of sending as one of the queue of datagrams to be sent.
pub open spec fn sending_flows(steps: Seq<Sending>) -> Seq<Flow<Outgoing>> {
    Seq::new(steps.len(), |k: int| steps[k].flow())
}

/// An attempt to receive a packet through a raw socket, after which packets arrive.
pub struct RawReceiving {
    pub before: ReactorView,
    pub task: int,
    pub arrived: Seq<Seq<u8>>,
    pub after: ReactorView,
}

impl RawReceiving {
    /// Whether this is what happened: the attempt was made, and then the stack added what arrived
    /// behind what was there.
    pub open spec fn happened(self, handle: SocketHandle) -> bool {
        &&& self.before.has_raw(handle)
        &&& self.after.raw_at(handle).rx == raw_socket::after_recv(
            self.before,
            handle,
            self.task,
        ).raw_at(handle).rx + self.arrived
    }

    /// The step as one of the queue of received packets.
    pub open spec fn flow(self, handle: SocketHandle) -> Flow<Seq<u8>> {
        let socket = self.before.raw_at(handle);
        Flow {
            before: socket.rx,
            out: if socket.rx.len() == 0 {
                Seq::empty()
            } else {
                seq![socket.rx[0]]
            },
            added: self.arrived,
            after: self.after.raw_at(handle).rx,
        }
    }

    /// A receive takes from the front, and what arrives goes to the back.
    pub proof fn is_in_order(self, handle: SocketHandle)
        requires
            self.happened(handle),
        ensures
            self.flow(handle).in_order(),
    {
        let rx = self.before.raw_at(handle).rx;
        let rest = raw_socket::after_recv(self.before, handle, self.task).raw_at(handle).rx;
        assert(rx =~= self.flow(handle).out + rest);
        assert(rx + self.arrived =~= self.flow(handle).out + (rest + self.arrived));
    }
}

/// A history of receiving as one of the queue of received packets.
pub open spec fn raw_receiving_flows(steps: Seq<RawReceiving>, handle: SocketHandle) -> Seq<
    Flow<Seq<u8>>,
> {
    Seq::new(steps.len(), |k: int| steps[k].flow(handle))
}

/// An attempt to send a packet through a raw socket, after which the stack has sent `sent` of
/// those that wait.
pub struct RawSending {
    pub before: ReactorView,
    pub data: Seq<u8>,
    pub tx_room: Set<nat>,
    pub task: int,
    pub sent: nat,
    pub after: ReactorView,
}

impl RawSending {
    /// Whether there was room for the packet.
    pub open spec fn accepted(self, handle: SocketHandle) -> bool {
        self.before.raw_at(handle).send_result(self.data.len()) is Ok
    }

    /// The socket once the attempt has been made.
    pub open spec fn queued(self, handle: SocketHandle) -> RawView {
        raw_socket::after_send(self.before, handle, self.data, self.tx_room, self.task).raw_at(
            handle,
        )
    }

    /// Whether this is what happened: the attempt was made, and then the stack removed packets
    /// from the front.
    pub open spec fn happened(self, handle: SocketHandle) -> bool {
        &&& self.before.has_raw(handle)
        &&& self.sent <= self.queued(handle).tx.len()
        &&& self.after.raw_at(handle).tx == self.queued(handle).tx.skip(self.sent as int)
    }

    /// The step as one of the queue of packets to be sent.
    pub open spec fn flow(self, handle: SocketHandle) -> Flow<Seq<u8>> {
        Flow {
            before: self.before.raw_at(handle).tx,
            out: self.queued(handle).tx.take(self.sent as int),
            added: if self.accepted(handle) {
                seq![self.data]
            } else {
                Seq::empty()
            },
            after: self.after.raw_at(handle).tx,
        }
    }

    /// A send adds to the back, and the stack takes from the front.
    pub proof fn is_in_order(self, handle: SocketHandle)
        requires
            self.happened(handle),
        ensures
            self.flow(handle).in_order(),
    {
        let tx = self.queued(handle).tx;
        let n = self.sent as int;
        assert(tx =~= self.before.raw_at(handle).tx + self.flow(handle).added);
        assert(tx =~= tx.take(n) + tx.skip(n));
    }
}

/// A history of sending as one of the queue of packets to be sent.
pub open spec fn raw_sending_flows(steps: Seq<RawSending>, handle: SocketHandle) -> Seq<
    Flow<Seq<u8>>,
> {
    Seq::new(steps.len(), |k: int| steps[k].flow(handle))
}

/// One round of a listener: an attempt to accept a connection and, where the listener takes every
/// port, the answer of the stack for its next socket. Where no answer is needed, `reactor_asked`,
/// `listened` and `answer` play no part.
pub struct AcceptRound {
    pub before: TcpListener,
    pub reactor_before: ReactorView,
    pub task: int,
    pub outcome: Poll<Result<Accepted, ErrorView>>,
    pub middle: TcpListener,
    pub reactor_middle: ReactorView,
    pub reactor_asked: ReactorView,
    pub listened: Result<(), ListenError>,
    pub answer: Result<(TcpStream, SocketAddr), ErrorView>,
    pub after: TcpListener,
    pub reactor_after: ReactorView,
}

impl AcceptRound {
    /// Whether this is what happened. Between attempt and answer the stack works on the new socket
    /// alone.
    pub open spec fn happened(self) -> bool {
        &&& self.reactor_before.has_tcp(self.before@.handle)
        &&& accept_attempt(
            self.before,
            self.middle,
            self.reactor_before,
            self.reactor_middle,
            self.task,
            self.outcome,
        )
        &&& match self.outcome {
            Poll::Ready(Ok(Accepted::Relisten { handle, addr: _ })) => {
                &&& self.reactor_asked == self.reactor_middle.with_tcp(
                    handle,
                    self.reactor_asked.tcp_at(handle),
                )
                &&& accept_answered(
                    self.middle,
                    self.after,
                    self.reactor_asked,
                    self.reactor_after,
                    handle,
                    self.listened,
                    self.answer,
                )
            },
            _ => {
                &&& self.after == self.middle
                &&& self.reactor_after == self.reactor_middle
            },
        }
    }

    /// The stream that was handed out, if one was.
    pub open spec fn stream(self) -> Option<TcpStream> {
        match self.outcome {
            Poll::Ready(Ok(Accepted::Connection(stream, _))) => Some(stream),
            Poll::Ready(Ok(Accepted::Relisten { handle: _, addr: _ })) => match self.answer {
                Ok((stream, _)) => Some(stream),
                Err(_) => None,
            },
            _ => None,
        }
    }
}

/// Whether these are the rounds of one listener, one after the other, and the sockets of the
/// streams that it handed out are still there at every later round.
pub open spec fn rounds_of_one_listener(rounds: Seq<AcceptRound>) -> bool {
    &&& forall|k: int| 0 <= k < rounds.len() ==> (#[trigger] rounds[k]).happened()
    &&& forall|j: int, k: int|
        0 <= j < k < rounds.len() && k == j + 1 ==> (#[trigger] rounds[k]).before@ == (
        #[trigger] rounds[j]).after@
    &&& forall|m: int, k: int|
        0 <= m < k < rounds.len() && (#[trigger] rounds[m]).stream() is Some ==> (
        #[trigger] rounds[k]).reactor_before.has_tcp(rounds[m].stream()->0@.handle)
}

} // verus!
