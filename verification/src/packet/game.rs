//! The catalogue of protocol messages, with framing and dispatch.

use super::ext::{ReadExt, WriteExt};
use core::convert::Infallible;
use vstd::prelude::*;

verus! {

/// Why no packet came out of the buffered bytes.
#[derive(Debug, Clone, Copy, PartialEq, Eq, Structural)]
pub enum Error {
    /// The bytes match no known packet layout. Framing on this stream is lost
    /// for good.
    Invalid,
    /// The bytes end before the packet does. More bytes may complete it.
    Incomplete,
}

impl Error {
    /// The sentence that describes the error.
    pub fn to_string(&self) -> (text: String)
        ensures
            text@ == match *self {
                Error::Invalid => "Invalid packet"@,
                Error::Incomplete => "There aren't enough bytes yet"@,
            },
    {
        match self {
            Error::Invalid => "Invalid packet".to_string(),
            Error::Incomplete => "There aren't enough bytes yet".to_string(),
        }
    }
}

/// One of the two endpoints of a session: where a packet or a span of bytes
/// came from, or where it is bound for.
#[derive(Debug, Copy, Clone, Eq, PartialEq, Structural)]
pub enum Direction {
    Server,
    Client,
}

impl Direction {
    /// The other endpoint.
    pub open spec fn opposite(self) -> Direction {
        match self {
            Direction::Server => Direction::Client,
            Direction::Client => Direction::Server,
        }
    }

    /// The other endpoint.
    #[verifier::when_used_as_spec(opposite)]
    pub fn reverse(self) -> (other: Direction)
        ensures
            other == self.opposite(),
    {
        match self {
            Direction::Server => Direction::Client,
            Direction::Client => Direction::Server,
        }
    }
}

/// What both parsing duties of one session share about it. Nothing is kept
/// yet.
#[derive(Debug, PartialEq, Eq, Structural)]
pub struct State {}

impl Default for State {
    fn default() -> (state: State)
        ensures
            state == (State {}),
    {
        State {}
    }
}

/// A protocol message: a tagged union with one variant for each catalogued
/// layout, each variant owning its decoded fields.
///
/// No layout is catalogued yet. The one variant holds a value of a type that
/// has none, so no packet can be built; it is there because a verified
/// datatype needs a variant, and it keeps the matches in `parse`, `write_to`
/// and `handle` in place, so that cataloguing a message is a local change.
#[derive(Debug)]
pub enum Packet {
    Never(Infallible),
}

impl Clone for Packet {
    fn clone(&self) -> (copy: Packet)
        ensures
            copy == *self,
    {
        match self {
            Packet::Never(never) => Packet::Never(*never),
        }
    }
}

/// Where the dispatcher sends a packet: the queue of packets bound for
/// `target`.
#[derive(Debug)]
pub struct Forward {
    pub target: Direction,
    pub packet: Packet,
}

impl Packet {
    /// The bytes of the packet on the wire, when it is bound for `target`.
    pub open spec fn encoding(self, target: Direction) -> Seq<u8> {
        match self {
            Packet::Never(_) => Seq::empty(),
        }
    }

    /// What stands at the front of `bytes` that came from `origin`: a packet
    /// and the number of bytes it takes up, or why there is none. Every packet
    /// starts with a byte that identifies its layout; without that byte the
    /// bytes are incomplete, and a byte that identifies no catalogued layout
    /// makes them invalid.
    pub open spec fn decode(origin: Direction, bytes: Seq<u8>) -> Result<(Packet, nat), Error> {
        if bytes.len() < 1 {
            Err(Error::Incomplete)
        } else {
            match bytes[0] {
                _ => Err(Error::Invalid),
            }
        }
    }

    /// What comes of parsing `bytes` while they arrive one at a time, from the
    /// attempt on the first `have` bytes on: the outcome of the first attempt
    /// that is not incomplete, or of the last attempt, on all the bytes.
    pub open spec fn decode_arriving(origin: Direction, bytes: Seq<u8>, have: nat) -> Result<
        (Packet, nat),
        Error,
    >
        decreases bytes.len() - have,
    {
        if have >= bytes.len() {
            Self::decode(origin, bytes)
        } else if Self::decode(origin, bytes.take(have as int)) != Err::<(Packet, nat), Error>(
            Error::Incomplete,
        ) {
            Self::decode(origin, bytes.take(have as int))
        } else {
            Self::decode_arriving(origin, bytes, have + 1)
        }
    }

    /// A packet takes up at least its identifier and no more than the bytes
    /// there are: it is a prefix of them, and what follows it is parsed anew.
    pub proof fn lemma_decode_takes_prefix(origin: Direction, bytes: Seq<u8>)
        ensures
            Self::decode(origin, bytes) matches Ok((_, n)) ==> 1 <= n <= bytes.len(),
    {
    }

    /// Once the bytes at hand frame to a packet or are invalid, bytes that
    /// arrive behind them change nothing.
    pub proof fn lemma_decode_settles(origin: Direction, bytes: Seq<u8>, have: int)
        requires
            0 <= have <= bytes.len(),
            Self::decode(origin, bytes.take(have)) != Err::<(Packet, nat), Error>(
                Error::Incomplete,
            ),
        ensures
            Self::decode(origin, bytes) == Self::decode(origin, bytes.take(have)),
    {
        assert(bytes.take(have)[0] == bytes[0]);
    }

    /// Parsing bytes as they arrive one at a time, with an attempt after each,
    /// ends as parsing all of them at once does: waiting on an incomplete
    /// packet loses nothing.
    pub proof fn lemma_decode_arriving(origin: Direction, bytes: Seq<u8>, have: nat)
        ensures
            Self::decode_arriving(origin, bytes, have) == Self::decode(origin, bytes),
        decreases bytes.len() - have,
    {
        if have < bytes.len() {
            if Self::decode(origin, bytes.take(have as int)) != Err::<(Packet, nat), Error>(
                Error::Incomplete,
            ) {
                Self::lemma_decode_settles(origin, bytes, have as int);
            } else {
                Self::lemma_decode_arriving(origin, bytes, have + 1);
            }
        }
    }

    /// Decodes the one packet that starts where the cursor stands.
    ///
    /// On success the cursor has moved past that packet and no further. Where
    /// the bytes end before the identifier, the cursor has not moved. Where
    /// the identifier is not catalogued, the cursor stands behind it.
    pub fn parse<R: ReadExt>(origin: Direction, stream: &mut R) -> (result: Result<Packet, Error>)
        ensures
            match Self::decode(origin, old(stream).unread()) {
                Ok((packet, n)) => {
                    &&& result == Ok::<Packet, Error>(packet)
                    &&& final(stream).unread() == old(stream).unread().skip(n as int)
                },
                Err(Error::Incomplete) => {
                    &&& result == Err::<Packet, Error>(Error::Incomplete)
                    &&& final(stream).unread() == old(stream).unread()
                },
                Err(Error::Invalid) => {
                    &&& result == Err::<Packet, Error>(Error::Invalid)
                    &&& final(stream).unread() == old(stream).unread().skip(1)
                },
            },
    {
        let id = match stream.read_u8() {
            Ok(id) => id,
            Err(e) => {
                return Err(e);
            },
        };
        match id {
            _ => Err(Error::Invalid),
        }
    }

    /// The number of bytes that the packet takes up on the wire, when it is
    /// bound for `target`.
    pub fn encoded_len(&self, target: Direction) -> (n: usize)
        ensures
            n == self.encoding(target).len(),
    {
        match self {
            Packet::Never(_) => 0,
        }
    }

    /// Appends the packet's bytes for `target` to a send buffer.
    pub fn write_to<W: WriteExt>(self, target: Direction, stream: &mut W)
        requires
            old(stream).written().len() + self.encoding(target).len() <= isize::MAX,
        ensures
            final(stream).written() == old(stream).written() + self.encoding(target),
    {
        match self {
            Packet::Never(_) => {
                assert(stream.written() =~= stream.written() + Seq::<u8>::empty());
            },
        }
    }

    /// Decides what becomes of a packet that came from `origin`: it goes,
    /// unchanged, to the queue for the opposite endpoint, and the session's
    /// state stays as it is.
    ///
    /// This is where a message gets a policy of its own: with the state in
    /// hand, which the caller has locked for the time of the call, it may be
    /// held back, changed, or joined by others.
    pub fn handle(self, origin: Direction, state: &mut State) -> (forward: Forward)
        ensures
            forward.target == origin.opposite(),
            forward.packet == self,
            *final(state) == *old(state),
    {
        Forward { target: origin.reverse(), packet: self }
    }
}

} // verus!
