//! The listener and the session, as state machines without I/O.
//!
//! A driver owns the sockets and the packet queues. It asks a machine what to
//! do, does it, and reports what came of it; the machine answers with its next
//! state. What a session does to its buffers between two waits is here as
//! well: the step of a parsing duty, that of a writing duty, and the test for
//! the end of a stream.

use crate::buf::{buffer_advance, buffer_has_room, buffer_slice, held, slice_remaining};
use crate::packet::ext::room_for;
use crate::packet::game::{Direction, Error, Forward, Packet, State};
use crate::sync::{packet_channel, receiver_bound, sender_bound};
use bytes::BytesMut;
use tokio::sync::mpsc;
use vstd::prelude::*;

verus! {

/// The room that each buffer of a session starts with, in bytes.
pub const BUFFER_CAPACITY: usize = 2048;

/// The number of packets that a queue of a session holds before a sender has
/// to wait.
pub const QUEUE_DEPTH: usize = 64;

/// How an operation on a socket failed.
#[derive(Debug, Clone, Copy, PartialEq, Eq, Structural)]
pub enum Failure {
    /// The stream ended where more was expected.
    EndOfStream,
    /// Any other failure, such as a reset connection.
    Other,
}

/// What came of the work that a machine asked for.
#[derive(Debug, Clone, Copy, PartialEq, Eq, Structural)]
pub enum Event {
    /// The stop signal resolved while the work was raced against it.
    Stop,
    /// The work came to its end: a command was carried out, a connection was
    /// accepted or, in the race of the duties, a duty ended without a fault,
    /// on a closed queue or at the end of a stream.
    Done,
    /// A parsing duty met bytes from this endpoint that are no packet.
    Fault(Direction),
    /// A socket operation failed.
    Failed(Failure),
}

/// Where a listener stands.
#[derive(Debug, Clone, Copy, PartialEq, Eq, Structural)]
pub enum Listener {
    /// It races the stop signal against the next connection.
    Accepting,
    /// It has returned on the stop signal.
    Stopped,
    /// It has returned the error of a failed accept.
    Failed,
}

impl Listener {
    /// The state after `event`, and whether a session is to be spawned, with
    /// a clone of the listener's stop handle, for a connection that came in.
    /// While accepting, a completed accept spawns a session and the listener
    /// goes on; a stop ends it; a failed accept ends it with the failure.
    /// Nothing else changes it, and a listener that has returned stays so.
    pub open spec fn after(self, event: Event) -> (Listener, bool) {
        match (self, event) {
            (Listener::Accepting, Event::Stop) => (Listener::Stopped, false),
            (Listener::Accepting, Event::Done) => (Listener::Accepting, true),
            (Listener::Accepting, Event::Failed(_)) => (Listener::Failed, false),
            _ => (self, false),
        }
    }

    /// A listener that has returned never spawns a session again, and stays
    /// as it is.
    pub proof fn lemma_returned_is_final(self, event: Event)
        requires
            self != Listener::Accepting,
        ensures
            self.after(event) == (self, false),
    {
    }

    /// A session is spawned for a completed accept and for nothing else, and
    /// the listener goes on accepting behind it.
    pub proof fn lemma_spawns_on_connection(self, event: Event)
        ensures
            self.after(event).1 <==> self == Listener::Accepting && event == Event::Done,
            self.after(event).1 ==> self.after(event).0 == Listener::Accepting,
    {
    }
}

/// One turn of a listener: from its state and what its race yielded to its
/// next state, and whether to spawn a session.
pub fn server(listener: Listener, event: Event) -> (next: (Listener, bool))
    ensures
        next == listener.after(event),
{
    match listener {
        Listener::Accepting => match event {
            Event::Stop => (Listener::Stopped, false),
            Event::Done => (Listener::Accepting, true),
            Event::Failed(_) => (Listener::Failed, false),
            Event::Fault(_) => (listener, false),
        },
        _ => (listener, false),
    }
}

/// The steps of closing a connection pair.
#[derive(Debug, Clone, Copy, PartialEq, Eq, Structural)]
pub enum Close {
    /// The remote socket is to be shut down.
    Remote,
    /// The remote socket is shut down; the local one is next.
    Local,
    /// Both are shut down: the connection ended in good order.
    Finished,
    /// The connection was given up on a failed socket operation.
    Failed,
}

impl Close {
    /// The step after `event`: a completed shutdown leads to the next one, a
    /// failed one gives the connection up, and the two ends are final.
    pub open spec fn after(self, event: Event) -> Close {
        match (self, event) {
            (Close::Remote, Event::Done) => Close::Local,
            (Close::Local, Event::Done) => Close::Finished,
            (Close::Remote, Event::Failed(_)) => Close::Failed,
            (Close::Local, Event::Failed(_)) => Close::Failed,
            _ => self,
        }
    }

    /// Whether nothing is left to do.
    pub open spec fn is_final(self) -> bool {
        self == Close::Finished || self == Close::Failed
    }

    fn step(self, event: Event) -> (next: Close)
        ensures
            next == self.after(event),
    {
        match self {
            Close::Remote => match event {
                Event::Done => Close::Local,
                Event::Failed(_) => Close::Failed,
                _ => self,
            },
            Close::Local => match event {
                Event::Done => Close::Finished,
                Event::Failed(_) => Close::Failed,
                _ => self,
            },
            _ => self,
        }
    }
}

/// What a driver is asked to do.
#[derive(Debug, Clone, Copy, PartialEq, Eq, Structural)]
pub enum Command {
    /// Run the two writing and the two parsing duties against the stop
    /// signal, up to the first of the five that ends.
    Race,
    /// Close both packet queues on their sending side.
    CloseQueues,
    /// Write all of the send buffer for this endpoint to its socket.
    Flush(Direction),
    /// Take what is left in the queue for this endpoint, up to its end, and
    /// serialize and flush each packet.
    Drain(Direction),
    /// Write all of the receive buffer that holds bytes from this endpoint to
    /// the socket of the opposite one.
    Relay(Direction),
    /// Read once from the socket of this endpoint into its receive buffer.
    Probe(Direction),
    /// Copy bytes both ways, as they come, against the stop signal, up to the
    /// first of the three that ends.
    Copy,
    /// Shut down the socket of this endpoint.
    Shutdown(Direction),
    /// Release everything and return: in good order, or with the failure
    /// that was reported last.
    Return { failed: bool },
}

/// Where a plain byte relay between two sockets stands.
#[derive(Debug, Clone, Copy, PartialEq, Eq, Structural)]
pub enum Relay {
    Copying,
    Closed(Close),
}

impl Relay {
    /// The state after `event`. The copy ends on whatever comes first, a
    /// failure too, and the sockets are then shut down, the remote one first.
    pub open spec fn after(self, event: Event) -> Relay {
        match self {
            Relay::Copying => match event {
                Event::Fault(_) => self,
                _ => Relay::Closed(Close::Remote),
            },
            Relay::Closed(step) => Relay::Closed(step.after(event)),
        }
    }

    /// What the driver is to do in this state.
    pub open spec fn todo(self) -> Command {
        match self {
            Relay::Copying => Command::Copy,
            Relay::Closed(Close::Remote) => Command::Shutdown(Direction::Server),
            Relay::Closed(Close::Local) => Command::Shutdown(Direction::Client),
            Relay::Closed(Close::Finished) => Command::Return { failed: false },
            Relay::Closed(Close::Failed) => Command::Return { failed: true },
        }
    }

    /// What the driver is to do in this state.
    #[verifier::when_used_as_spec(todo)]
    pub fn command(self) -> (command: Command)
        ensures
            command == self.todo(),
    {
        match self {
            Relay::Copying => Command::Copy,
            Relay::Closed(Close::Remote) => Command::Shutdown(Direction::Server),
            Relay::Closed(Close::Local) => Command::Shutdown(Direction::Client),
            Relay::Closed(Close::Finished) => Command::Return { failed: false },
            Relay::Closed(Close::Failed) => Command::Return { failed: true },
        }
    }
}

/// One turn of a plain byte relay: from its state and what came of its work
/// to its next state.
pub fn master(relay: Relay, event: Event) -> (next: Relay)
    ensures
        next == relay.after(event),
{
    match relay {
        Relay::Copying => match event {
            Event::Fault(_) => relay,
            _ => Relay::Closed(Close::Remote),
        },
        Relay::Closed(step) => Relay::Closed(step.step(event)),
    }
}

/// The steps of draining a session after a fault, in their order.
#[derive(Debug, Clone, Copy, PartialEq, Eq, Structural)]
pub enum Drain {
    Queues,
    ServerBuffer,
    ClientBuffer,
    ServerQueue,
    ClientQueue,
}

/// The steps of the raw relay that a session falls back to, in their order.
#[derive(Debug, Clone, Copy, PartialEq, Eq, Structural)]
pub enum Raw {
    /// The unparsed bytes of the faulting endpoint go to the opposite one.
    Unparsed,
    /// One more read from the faulting endpoint.
    Probe,
    /// What the receive buffer for the client holds goes to the server.
    ClientRest,
    /// What the receive buffer for the server holds goes to the client.
    ServerRest,
    /// Bytes are copied both ways with no decoding.
    Copy,
}

/// Where a session stands. `Draining` and `RawRelay` carry the endpoint whose
/// bytes were no packet.
#[derive(Debug, Clone, Copy, PartialEq, Eq, Structural)]
pub enum Session {
    /// Packets are parsed, dispatched and written.
    Active,
    /// A fault was met: what is queued and buffered is flushed.
    Draining(Direction, Drain),
    /// Bytes pass as they are.
    RawRelay(Direction, Raw),
    /// The sockets are shut down, or the session is over.
    Closed(Close),
}

impl Session {
    /// The state after `event`.
    ///
    /// While active, a session closes on the stop signal and on a duty that
    /// ends without a fault, to which the end of a stream counts, also where a
    /// socket reported it as a failure; any other failure gives the session
    /// up, and a fault starts the draining. Each step of draining and of the
    /// raw relay leads to the next when its work is done, and gives the
    /// session up when it fails, but for the copy, which ends on whatever
    /// comes first and leads to closing. An event that the state does not
    /// wait for leaves it as it is.
    pub open spec fn after(self, event: Event) -> Session {
        match self {
            Session::Active => match event {
                Event::Stop => Session::Closed(Close::Remote),
                Event::Done => Session::Closed(Close::Remote),
                Event::Fault(origin) => Session::Draining(origin, Drain::Queues),
                Event::Failed(Failure::EndOfStream) => Session::Closed(Close::Remote),
                Event::Failed(Failure::Other) => Session::Closed(Close::Failed),
            },
            Session::Draining(origin, step) => match event {
                Event::Done => match step {
                    Drain::Queues => Session::Draining(origin, Drain::ServerBuffer),
                    Drain::ServerBuffer => Session::Draining(origin, Drain::ClientBuffer),
                    Drain::ClientBuffer => Session::Draining(origin, Drain::ServerQueue),
                    Drain::ServerQueue => Session::Draining(origin, Drain::ClientQueue),
                    Drain::ClientQueue => Session::RawRelay(origin, Raw::Unparsed),
                },
                Event::Failed(_) => Session::Closed(Close::Failed),
                _ => self,
            },
            Session::RawRelay(origin, Raw::Copy) => match event {
                Event::Fault(_) => self,
                _ => Session::Closed(Close::Remote),
            },
            Session::RawRelay(origin, step) => match event {
                Event::Done => match step {
                    Raw::Unparsed => Session::RawRelay(origin, Raw::Probe),
                    Raw::Probe => Session::RawRelay(origin, Raw::ClientRest),
                    Raw::ClientRest => Session::RawRelay(origin, Raw::ServerRest),
                    _ => Session::RawRelay(origin, Raw::Copy),
                },
                Event::Failed(_) => Session::Closed(Close::Failed),
                _ => self,
            },
            Session::Closed(step) => Session::Closed(step.after(event)),
        }
    }

    /// What the driver is to do in this state.
    pub open spec fn todo(self) -> Command {
        match self {
            Session::Active => Command::Race,
            Session::Draining(_, Drain::Queues) => Command::CloseQueues,
            Session::Draining(_, Drain::ServerBuffer) => Command::Flush(Direction::Server),
            Session::Draining(_, Drain::ClientBuffer) => Command::Flush(Direction::Client),
            Session::Draining(_, Drain::ServerQueue) => Command::Drain(Direction::Server),
            Session::Draining(_, Drain::ClientQueue) => Command::Drain(Direction::Client),
            Session::RawRelay(origin, Raw::Unparsed) => Command::Relay(origin),
            Session::RawRelay(origin, Raw::Probe) => Command::Probe(origin),
            Session::RawRelay(_, Raw::ClientRest) => Command::Relay(Direction::Client),
            Session::RawRelay(_, Raw::ServerRest) => Command::Relay(Direction::Server),
            Session::RawRelay(_, Raw::Copy) => Command::Copy,
            Session::Closed(step) => Relay::Closed(step).todo(),
        }
    }

    /// The state that a sequence of events leads to from this one.
    pub open spec fn run(self, events: Seq<Event>) -> Session
        decreases events.len(),
    {
        if events.len() == 0 {
            self
        } else {
            self.run(events.drop_last()).after(events.last())
        }
    }

    /// The number of `Done` among the events.
    pub open spec fn completions(events: Seq<Event>) -> nat
        decreases events.len(),
    {
        if events.len() == 0 {
            0
        } else {
            Self::completions(events.drop_last()) + if events.last() == Event::Done {
                1nat
            } else {
                0nat
            }
        }
    }

    /// How far the session has come: a number that grows with each state on
    /// the way from `Active` to the end.
    pub open spec fn progress(self) -> nat {
        match self {
            Session::Active => 0,
            Session::Draining(_, Drain::Queues) => 1,
            Session::Draining(_, Drain::ServerBuffer) => 2,
            Session::Draining(_, Drain::ClientBuffer) => 3,
            Session::Draining(_, Drain::ServerQueue) => 4,
            Session::Draining(_, Drain::ClientQueue) => 5,
            Session::RawRelay(_, Raw::Unparsed) => 6,
            Session::RawRelay(_, Raw::Probe) => 7,
            Session::RawRelay(_, Raw::ClientRest) => 8,
            Session::RawRelay(_, Raw::ServerRest) => 9,
            Session::RawRelay(_, Raw::Copy) => 10,
            Session::Closed(Close::Remote) => 11,
            Session::Closed(Close::Local) => 12,
            Session::Closed(_) => 13,
        }
    }

    /// The number of commands that were completed since the fault, for a
    /// state of draining or of the raw relay.
    pub open spec fn completed(self) -> nat {
        match self {
            Session::Draining(_, _) => (self.progress() - 1) as nat,
            Session::RawRelay(_, _) => (self.progress() - 1) as nat,
            _ => 0,
        }
    }

    /// What the driver is to do in this state.
    #[verifier::when_used_as_spec(todo)]
    pub fn command(self) -> (command: Command)
        ensures
            command == self.todo(),
    {
        match self {
            Session::Active => Command::Race,
            Session::Draining(_, step) => match step {
                Drain::Queues => Command::CloseQueues,
                Drain::ServerBuffer => Command::Flush(Direction::Server),
                Drain::ClientBuffer => Command::Flush(Direction::Client),
                Drain::ServerQueue => Command::Drain(Direction::Server),
                Drain::ClientQueue => Command::Drain(Direction::Client),
            },
            Session::RawRelay(origin, step) => match step {
                Raw::Unparsed => Command::Relay(origin),
                Raw::Probe => Command::Probe(origin),
                Raw::ClientRest => Command::Relay(Direction::Client),
                Raw::ServerRest => Command::Relay(Direction::Server),
                Raw::Copy => Command::Copy,
            },
            Session::Closed(step) => Relay::Closed(step).command(),
        }
    }

    /// A session never goes back: no event leads to an earlier state. So a
    /// session in raw relay never parses again, and one that is closed stays
    /// closed.
    pub proof fn lemma_never_back(self, event: Event)
        ensures
            self.progress() <= self.after(event).progress(),
            self matches Session::RawRelay(_, _) ==> !(self.after(event) matches Session::Active)
                && !(self.after(event) matches Session::Draining(_, _)),
            self matches Session::Closed(_) ==> self.after(event) matches Session::Closed(_),
    {
    }

    /// A session that is over stays as it is, whatever is reported to it.
    pub proof fn lemma_over_is_final(self, event: Event)
        requires
            self matches Session::Closed(step) && step.is_final(),
        ensures
            self.after(event) == self,
    {
    }

    /// While a session is active, the end of a stream is no failure, however
    /// it is reported: it closes the session in good order as a duty that
    /// ended does. Any other failure gives the session up at once, with no
    /// draining and no raw relay.
    pub proof fn lemma_end_of_stream_is_no_failure()
        ensures
            Session::Active.after(Event::Failed(Failure::EndOfStream)) == Session::Active.after(
                Event::Done,
            ),
            Session::Active.after(Event::Done) == Session::Closed(Close::Remote),
            Session::Active.after(Event::Failed(Failure::Other)) == Session::Closed(Close::Failed),
    {
    }

    /// Draining is entered on a fault and on nothing else, and the raw relay
    /// upon the last step of draining and on nothing else. The endpoint at
    /// fault is kept all the way.
    pub proof fn lemma_one_way_in(self, event: Event)
        ensures
            self.after(event) matches Session::Draining(origin, _) ==> {
                ||| self == Session::Active && event == Event::Fault(origin)
                ||| self matches Session::Draining(before, _) && before == origin
            },
            self.after(event) matches Session::RawRelay(origin, _) ==> {
                ||| self == Session::Draining(origin, Drain::ClientQueue) && event == Event::Done
                ||| self matches Session::RawRelay(before, _) && before == origin
            },
    {
    }

    /// However a session came, from its start, to draining or to the raw
    /// relay: the fault of the endpoint that it names was reported, and every
    /// command since then was completed, one `Done` for each. In the raw relay
    /// these are at least the five of draining: the queues were closed, and
    /// both send buffers and both queues were flushed, before a byte passed
    /// undecoded.
    pub proof fn lemma_raw_relay_follows_drain(events: Seq<Event>)
        ensures
            Session::Active.run(events) matches Session::Draining(origin, _) ==> {
                &&& events.contains(Event::Fault(origin))
                &&& Self::completions(events) >= Session::Active.run(events).completed()
            },
            Session::Active.run(events) matches Session::RawRelay(origin, _) ==> {
                &&& events.contains(Event::Fault(origin))
                &&& Self::completions(events) >= Session::Active.run(events).completed()
                &&& Session::Active.run(events).completed() >= 5
            },
        decreases events.len(),
    {
        if events.len() > 0 {
            let before = events.drop_last();
            let last = events.last();
            Self::lemma_raw_relay_follows_drain(before);
            let reached = Session::Active.run(before);
            reached.lemma_one_way_in(last);
            assert(events[events.len() - 1] == last);
            assert forall|e: Event| before.contains(e) implies events.contains(e) by {
                let i = choose|i: int| 0 <= i < before.len() && before[i] == e;
                assert(events[i] == e);
            }
        }
    }
}

/// One turn of a session: from its state and what came of its work to its
/// next state.
pub fn game(session: Session, event: Event) -> (next: Session)
    ensures
        next == session.after(event),
{
    match session {
        Session::Active => match event {
            Event::Stop | Event::Done | Event::Failed(Failure::EndOfStream) => Session::Closed(
                Close::Remote,
            ),
            Event::Fault(origin) => Session::Draining(origin, Drain::Queues),
            Event::Failed(Failure::Other) => Session::Closed(Close::Failed),
        },
        Session::Draining(origin, step) => match event {
            Event::Done => match step {
                Drain::Queues => Session::Draining(origin, Drain::ServerBuffer),
                Drain::ServerBuffer => Session::Draining(origin, Drain::ClientBuffer),
                Drain::ClientBuffer => Session::Draining(origin, Drain::ServerQueue),
                Drain::ServerQueue => Session::Draining(origin, Drain::ClientQueue),
                Drain::ClientQueue => Session::RawRelay(origin, Raw::Unparsed),
            },
            Event::Failed(_) => Session::Closed(Close::Failed),
            _ => session,
        },
        Session::RawRelay(origin, step) => match step {
            Raw::Copy => match event {
                Event::Fault(_) => session,
                _ => Session::Closed(Close::Remote),
            },
            _ => match event {
                Event::Done => match step {
                    Raw::Unparsed => Session::RawRelay(origin, Raw::Probe),
                    Raw::Probe => Session::RawRelay(origin, Raw::ClientRest),
                    Raw::ClientRest => Session::RawRelay(origin, Raw::ServerRest),
                    _ => Session::RawRelay(origin, Raw::Copy),
                },
                Event::Failed(_) => Session::Closed(Close::Failed),
                _ => session,
            },
        },
        Session::Closed(step) => Session::Closed(step.step(event)),
    }
}

/// The four buffers of a session: for each endpoint, the bytes received from
/// it that are not parsed yet, and the bytes bound for it that are not written
/// yet.
#[derive(Debug)]
pub struct Buffers {
    pub client_recv: BytesMut,
    pub client_send: BytesMut,
    pub server_recv: BytesMut,
    pub server_send: BytesMut,
}

impl Buffers {
    /// The buffers of a session that starts: all four hold nothing.
    pub fn new() -> (buffers: Buffers)
        ensures
            held(buffers.client_recv) == Seq::<u8>::empty(),
            held(buffers.client_send) == Seq::<u8>::empty(),
            held(buffers.server_recv) == Seq::<u8>::empty(),
            held(buffers.server_send) == Seq::<u8>::empty(),
    {
        Buffers {
            client_recv: BytesMut::with_capacity(BUFFER_CAPACITY),
            client_send: BytesMut::with_capacity(BUFFER_CAPACITY),
            server_recv: BytesMut::with_capacity(BUFFER_CAPACITY),
            server_send: BytesMut::with_capacity(BUFFER_CAPACITY),
        }
    }
}

/// The two ends of a new packet queue of a session: a queue that holds
/// `QUEUE_DEPTH` packets, so that a sender has to wait while that many are in
/// it.
pub fn packet_queue() -> (ends: (mpsc::Sender<Packet>, mpsc::Receiver<Packet>))
    ensures
        sender_bound(ends.0) == QUEUE_DEPTH,
        receiver_bound(ends.1) == QUEUE_DEPTH,
{
    packet_channel(QUEUE_DEPTH)
}

/// What a parsing duty does next.
#[derive(Debug)]
pub enum Reading {
    /// A packet was taken off the buffer and dispatched: it is to be put on
    /// the queue that the forward names, and the duty goes on.
    Dispatch(Forward),
    /// The buffer holds no whole packet: more bytes are to be read from the
    /// socket. `room` says whether the buffer could take any.
    Fill { room: bool },
    /// The bytes in the buffer are no packet: the duty ends and reports the
    /// endpoint they came from.
    Fault(Direction),
}

/// One step of the duty that parses what came from `origin`.
///
/// A whole packet at the front of `recv` is taken off it, exactly the bytes of
/// that packet and none behind them, and handled. Otherwise the buffer is left
/// as it is, byte for byte: it waits for more, or it holds what the raw relay
/// will pass on.
#[allow(unreachable_code)]
pub fn reader(origin: Direction, recv: &mut BytesMut, state: &mut State) -> (step: Reading)
    ensures
        match Packet::decode(origin, held(*old(recv))) {
            Ok((packet, n)) => {
                &&& step matches Reading::Dispatch(forward)
                &&& forward.target == origin.opposite()
                &&& forward.packet == packet
                &&& held(*final(recv)) == held(*old(recv)).skip(n as int)
            },
            Err(Error::Incomplete) => {
                &&& step matches Reading::Fill { room }
                &&& room == (held(*old(recv)).len() < isize::MAX)
                &&& held(*final(recv)) == held(*old(recv))
            },
            Err(Error::Invalid) => {
                &&& step matches Reading::Fault(at)
                &&& at == origin
                &&& held(*final(recv)) == held(*old(recv))
            },
        },
        *final(state) == *old(state),
{
    let mut cursor: &[u8] = buffer_slice(recv);
    let before = slice_remaining(&cursor);
    proof {
        Packet::lemma_decode_takes_prefix(origin, cursor@);
    }
    match Packet::parse(origin, &mut cursor) {
        Ok(packet) => {
            let len = before - slice_remaining(&cursor);
            buffer_advance(recv, len);
            Reading::Dispatch(packet.handle(origin, state))
        },
        Err(Error::Incomplete) => Reading::Fill { room: buffer_has_room(recv) },
        Err(Error::Invalid) => Reading::Fault(origin),
    }
}

/// One step of the duty that writes to `target`: the packet that came off the
/// queue is serialized behind what the send buffer holds, for the driver to
/// write out. Where the buffer cannot take the packet's bytes, nothing is
/// written to it and `false` comes back.
pub fn writer(target: Direction, packet: Packet, send: &mut BytesMut) -> (taken: bool)
    ensures
        taken == (held(*old(send)).len() + packet.encoding(target).len() <= isize::MAX),
        taken ==> held(*final(send)) == held(*old(send)) + packet.encoding(target),
        !taken ==> held(*final(send)) == held(*old(send)),
{
    if room_for(send, packet.encoded_len(target)) {
        packet.write_to(target, send);
        true
    } else {
        false
    }
}

/// Whether a read into a receive buffer met the end of the stream: it read
/// nothing although the buffer had room. This ends the duty in good order.
pub fn end_of_stream(room: bool, amount: usize) -> (end: bool)
    ensures
        end == (room && amount == 0),
{
    room && amount == 0
}

} // verus!
