//! The handle to the local server that serves the PAC script.
//!
//! At most one server runs per process. The handle keeps the sending half of
//! the server's shutdown channel; whoever starts a server puts the sender
//! here, and whoever changes the proxy mode stops the server through it.

use crate::text::{chars_of, decimal, extend_chars, push_decimal, string_of};
use vstd::prelude::*;
use vstd::string::*;

verus! {

/// `tokio::sync::oneshot::Sender`, carried as it is.
#[verifier::external_type_specification]
#[verifier::external_body]
#[verifier::reject_recursive_types(T)]
pub struct ExShutdownSender<T>(tokio::sync::oneshot::Sender<T>);

/// `tokio::sync::oneshot::Sender::send` with the unit value: the sender is
/// used up; the answer tells whether a receiver was there to take the signal.
/// Nothing is promised of the answer: the server may be gone already.
#[verifier::external_body]
fn send_shutdown(sender: tokio::sync::oneshot::Sender<()>) -> (delivered: bool) {
    sender.send(()).is_ok()
}

/// How an attempt to stop the PAC server went.
#[derive(Clone, Copy, Debug, PartialEq, Eq, Structural)]
pub enum StopOutcome {
    /// No server was running.
    NotRunning,
    /// The server took the signal and shuts down.
    Signalled,
    /// The server had gone before the signal was sent.
    AlreadyGone,
}

/// What a delivery report means for a stop.
pub open spec fn outcome_of(delivered: bool) -> StopOutcome {
    if delivered {
        StopOutcome::Signalled
    } else {
        StopOutcome::AlreadyGone
    }
}

/// Names the result of a delivery.
pub fn stop_outcome(delivered: bool) -> (outcome: StopOutcome)
    ensures
        outcome == outcome_of(delivered),
{
    if delivered {
        StopOutcome::Signalled
    } else {
        StopOutcome::AlreadyGone
    }
}

/// What became of a newly started server that was handed over.
#[derive(Clone, Copy, Debug, PartialEq, Eq, Structural)]
pub enum Takeover {
    /// The handle holds the new server.
    Accepted,
    /// No start was under way: the new server was told to stop, and the
    /// handle is as it was.
    Refused,
}

/// The shutdown signal of at most one running PAC server.
///
/// A new server is started in two steps: `begin_start` stops the server that
/// is held and leaves the handle empty, so that no server runs while the host
/// binds the new one; `finish_start` takes the new server over.
pub struct PacServerShutdownHandle {
    pub shutdown_tx: Option<tokio::sync::oneshot::Sender<()>>,
    /// Whether a start is under way: the old server was stopped and the new
    /// one is awaited.
    pub starting: bool,
}

impl PacServerShutdownHandle {
    /// A handle without a server.
    pub fn new() -> (handle: Self)
        ensures
            handle.shutdown_tx is None,
            !handle.starting,
    {
        PacServerShutdownHandle { shutdown_tx: None, starting: false }
    }

    /// Whether a server is held.
    pub fn is_running(&self) -> (held: bool)
        ensures
            held == self.shutdown_tx is Some,
    {
        self.shutdown_tx.is_some()
    }

    /// Stops the server, if one is held: its shutdown is signalled, and the
    /// handle is empty afterwards in every case. A start that is under way is
    /// called off. Stopping without a server is harmless.
    pub fn stop(&mut self) -> (outcome: StopOutcome)
        ensures
            final(self).shutdown_tx is None,
            !final(self).starting,
            outcome == StopOutcome::NotRunning <==> old(self).shutdown_tx is None,
    {
        self.starting = false;
        match self.shutdown_tx.take() {
            Some(sender) => stop_outcome(send_shutdown(sender)),
            None => StopOutcome::NotRunning,
        }
    }

    /// Begins the start of a new server: the server that is held is stopped
    /// first, so that the handle is empty while the host binds the new one.
    pub fn begin_start(&mut self) -> (previous: StopOutcome)
        ensures
            final(self).shutdown_tx is None,
            final(self).starting,
            previous == StopOutcome::NotRunning <==> old(self).shutdown_tx is None,
    {
        let previous = self.stop();
        self.starting = true;
        previous
    }

    /// Ends the start of a new server. Where the start was begun, the handle
    /// takes the new server over; a server that got into the handle in the
    /// meantime is stopped first, so that never two are held. Where no start
    /// was begun, or it was called off, the new server is told to stop and
    /// the handle stays as it was.
    pub fn finish_start(&mut self, sender: tokio::sync::oneshot::Sender<()>) -> (result: Takeover)
        ensures
            !final(self).starting,
            old(self).starting ==> result == Takeover::Accepted && final(self).shutdown_tx
                == Some(sender),
            !old(self).starting ==> result == Takeover::Refused && final(self).shutdown_tx
                == old(self).shutdown_tx,
    {
        if self.starting {
            let _ = self.stop();
            self.shutdown_tx = Some(sender);
            Takeover::Accepted
        } else {
            let _ = send_shutdown(sender);
            Takeover::Refused
        }
    }
}

/// The address under which the PAC script is served on the given port.
pub open spec fn pac_url_for(port: u16) -> Seq<char> {
    "http://127.0.0.1:"@ + decimal(port as nat) + "/proxy.pac"@
}

pub fn pac_url(port: u16) -> (url: String)
    ensures
        url@ == pac_url_for(port),
{
    let mut out = chars_of("http://127.0.0.1:");
    push_decimal(&mut out, port as u64);
    extend_chars(&mut out, &chars_of("/proxy.pac"));
    string_of(&out)
}

} // verus!
