//! The stop handle: how listeners and sessions learn that the proxy is
//! stopping, and how the proxy learns that they are gone.
//!
//! A handle joins two things. One is the receiving end of a broadcast that
//! fires at most once; a handle that has seen it fire remembers so. The other
//! is a sending end of a queue that nothing is ever sent on: the root holds
//! the receiving end, which reports the queue closed once every handle, each
//! clone counted, has been dropped.

use tokio::sync::{mpsc, watch};
use vstd::prelude::*;

verus! {

/// A stop handle, one for each listener and each session. Every clone is
/// counted until it is dropped.
#[derive(Debug)]
pub struct Shutdown {
    notify: watch::Receiver<()>,
    shutdown: bool,
    running: mpsc::Sender<()>,
}

/// Whether a wait is over, for a handle that had, or had not, seen the stop
/// before, and for which the signal has, or has not, resolved since.
pub open spec fn wait_is_over(stopped: bool, resolved: bool) -> bool {
    stopped || resolved
}

/// Once a wait on a handle is over, every later wait on it is over as well,
/// whether or not the signal is looked at again.
pub proof fn lemma_wait_is_idempotent(stopped: bool, resolved: bool, later: bool)
    requires
        wait_is_over(stopped, resolved),
    ensures
        wait_is_over(wait_is_over(stopped, resolved), later),
{
}

impl Shutdown {
    /// Whether the handle has seen the stop.
    pub closed spec fn stopped(&self) -> bool {
        self.shutdown
    }

    /// The end on which the stop signal reaches the handle.
    pub closed spec fn notify_end(&self) -> watch::Receiver<()> {
        self.notify
    }

    /// The end that counts the handle among the living.
    pub closed spec fn running_end(&self) -> mpsc::Sender<()> {
        self.running
    }

    /// Makes the three linked parts of a coordinator: the emitter of the stop
    /// signal, the end that reports when every handle is gone, and the first
    /// handle.
    pub fn create() -> (parts: (watch::Sender<()>, mpsc::Receiver<()>, Shutdown))
        ensures
            !parts.2.stopped(),
    {
        let (running_send, running_recv) = mpsc::channel(1);
        let (notify_send, notify_recv) = watch::channel(());
        (notify_send, running_recv, Self::new(notify_recv, running_send))
    }

    /// A handle on the given ends, which has not seen the stop.
    pub fn new(notify: watch::Receiver<()>, running: mpsc::Sender<()>) -> (handle: Shutdown)
        ensures
            !handle.stopped(),
            handle.notify_end() == notify,
            handle.running_end() == running,
    {
        Self { notify, running, shutdown: false }
    }

    /// Whether the handle has seen the stop.
    #[verifier::when_used_as_spec(stopped)]
    pub fn is_shutdown(&self) -> (stopped: bool)
        ensures
            stopped == self.stopped(),
    {
        self.shutdown
    }

    /// The end on which the stop signal arrives, for the one who waits on it.
    /// Handing it out changes nothing about what the handle has seen.
    pub fn signal(&mut self) -> (end: &mut watch::Receiver<()>)
        ensures
            *end == old(self).notify_end(),
            final(self).notify_end() == *final(end),
            final(self).running_end() == old(self).running_end(),
            final(self).stopped() == old(self).stopped(),
    {
        &mut self.notify
    }

    /// One step of waiting for the stop. `resolved` says whether the signal
    /// has resolved, by firing or by the loss of its emitter, since the handle
    /// was last asked.
    ///
    /// The wait is over, and `true` comes back, if the handle had seen the
    /// stop before or the signal has resolved now; the handle then remembers.
    /// Otherwise the caller is to wait on the signal and to come back with
    /// `resolved` set. A handle that has seen the stop does not look at
    /// `resolved`, and is not changed.
    pub fn wait(&mut self, resolved: bool) -> (over: bool)
        ensures
            over == wait_is_over(old(self).stopped(), resolved),
            final(self).stopped() == over,
            final(self).notify_end() == old(self).notify_end(),
            final(self).running_end() == old(self).running_end(),
            old(self).stopped() ==> *final(self) == *old(self),
    {
        if self.shutdown {
            return true;
        }
        if resolved {
            self.shutdown = true;
        }
        resolved
    }
}

impl Clone for Shutdown {
    /// One more handle, counted with the others, which has seen what this one
    /// has.
    fn clone(&self) -> (copy: Shutdown)
        ensures
            copy.stopped() == self.stopped(),
    {
        Shutdown {
            notify: self.notify.clone(),
            shutdown: self.shutdown,
            running: self.running.clone(),
        }
    }
}

} // verus!
