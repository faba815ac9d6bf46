//! What the library takes on trust about the channels of `tokio`.
//!
//! The library makes channels and carries their ends; it never sends,
//! receives or waits on one. So the ends are opaque here. Nothing in this file
//! is proved: each item gives the condition under which a call does not
//! panic, and of a packet queue the one thing that the source of `tokio` fixes
//! for good when the queue is made, the number of packets it holds.

use crate::packet::game::Packet;
use vstd::prelude::*;

verus! {

/// `tokio::sync::watch::Sender`, the end that publishes a value.
#[verifier::external_type_specification]
#[verifier::external_body]
#[verifier::reject_recursive_types(T)]
pub struct ExWatchSender<T>(tokio::sync::watch::Sender<T>);

/// `tokio::sync::watch::Receiver`, an end that is told of changes.
#[verifier::external_type_specification]
#[verifier::external_body]
#[verifier::reject_recursive_types(T)]
pub struct ExWatchReceiver<T>(tokio::sync::watch::Receiver<T>);

/// `tokio::sync::mpsc::Sender`, a sending end of a bounded queue.
#[verifier::external_type_specification]
#[verifier::external_body]
#[verifier::reject_recursive_types(T)]
pub struct ExQueueSender<T>(tokio::sync::mpsc::Sender<T>);

/// `tokio::sync::mpsc::Receiver`, the receiving end of a bounded queue.
#[verifier::external_type_specification]
#[verifier::external_body]
#[verifier::reject_recursive_types(T)]
pub struct ExQueueReceiver<T>(tokio::sync::mpsc::Receiver<T>);

/// `tokio::sync::watch::channel`: a channel that holds `init`.
pub assume_specification<T>[ tokio::sync::watch::channel::<T> ](init: T) -> (ends: (
    tokio::sync::watch::Sender<T>,
    tokio::sync::watch::Receiver<T>,
))
;

/// `tokio::sync::mpsc::channel`: a queue of at most `buffer` messages. It
/// panics on a bound of zero, and on one above an eighth of `usize::MAX`.
pub assume_specification<T>[ tokio::sync::mpsc::channel::<T> ](buffer: usize) -> (ends: (
    tokio::sync::mpsc::Sender<T>,
    tokio::sync::mpsc::Receiver<T>,
))
    requires
        0 < buffer <= usize::MAX / 8,
;

/// The number of packets that the queue behind this sending end was made to
/// hold: what `Sender::max_capacity` reports of it, at any time.
pub uninterp spec fn sender_bound(end: tokio::sync::mpsc::Sender<Packet>) -> nat;

/// The number of packets that the queue behind this receiving end was made to
/// hold: what `Receiver::max_capacity` reports of it, at any time.
pub uninterp spec fn receiver_bound(end: tokio::sync::mpsc::Receiver<Packet>) -> nat;

/// `tokio::sync::mpsc::channel`, for packets: the two ends of a new queue
/// that holds at most `depth` packets. Both ends keep that bound as long as
/// they live. The call panics on a bound of zero, and on one above an eighth
/// of `usize::MAX`.
#[verifier::external_body]
pub(crate) fn packet_channel(depth: usize) -> (ends: (
    tokio::sync::mpsc::Sender<Packet>,
    tokio::sync::mpsc::Receiver<Packet>,
))
    requires
        0 < depth <= usize::MAX / 8,
    ensures
        sender_bound(ends.0) == depth,
        receiver_bound(ends.1) == depth,
{
    tokio::sync::mpsc::channel(depth)
}

/// `Clone` of `tokio::sync::watch::Receiver`: one more end of the same
/// channel.
pub assume_specification<T>[ <tokio::sync::watch::Receiver<T> as Clone>::clone ](
    end: &tokio::sync::watch::Receiver<T>,
) -> (copy: tokio::sync::watch::Receiver<T>)
;

/// `Clone` of `tokio::sync::mpsc::Sender`: one more sending end of the same
/// queue.
pub assume_specification<T>[ <tokio::sync::mpsc::Sender<T> as Clone>::clone ](
    end: &tokio::sync::mpsc::Sender<T>,
) -> (copy: tokio::sync::mpsc::Sender<T>)
;

} // verus!
