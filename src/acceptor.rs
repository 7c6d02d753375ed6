//! The connection acceptor's decisions: whether to poll the listener again,
//! and what to do with the outcome of one non-blocking accept.
use vstd::prelude::*;

verus! {

/// Milliseconds to sleep when no connection was pending.
pub const POLL_INTERVAL_MS: u64 = 100;

/// The outcome of one non-blocking accept on the listener.
#[derive(Clone, Copy, Debug, PartialEq, Eq, Structural)]
pub enum AcceptOutcome {
    /// A connection was accepted.
    Accepted,
    /// No connection was pending.
    WouldBlock,
    /// Any other accept error.
    Failed,
}

/// What the acceptor does after an accept.
#[derive(Clone, Copy, Debug, PartialEq, Eq, Structural)]
pub enum Reaction {
    /// Hand the connection to the pool as a job and poll again at once.
    Dispatch,
    /// Sleep for the given number of milliseconds, then poll again.
    Sleep(u64),
    /// Log the error and poll again at once.
    Report,
}

/// The reaction to an accept outcome.
pub open spec fn reaction_of(outcome: AcceptOutcome) -> Reaction {
    match outcome {
        AcceptOutcome::Accepted => Reaction::Dispatch,
        AcceptOutcome::WouldBlock => Reaction::Sleep(POLL_INTERVAL_MS),
        AcceptOutcome::Failed => Reaction::Report,
    }
}

/// Milliseconds that pass, apart from the accept itself, before the acceptor
/// next looks at the shutdown flag.
pub open spec fn pause_ms(r: Reaction) -> nat {
    match r {
        Reaction::Sleep(ms) => ms as nat,
        _ => 0,
    }
}

/// Whether the acceptor has stopped after it was `stopped` and then saw the
/// shutdown flag as `flag`: the flag is one-shot, so once seen it is kept.
pub open spec fn stopped_after(stopped: bool, flag: bool) -> bool {
    stopped || flag
}

/// The accept loop's own state.
pub struct Acceptor {
    stopped: bool,
}

impl Acceptor {
    /// Whether the loop has stopped accepting.
    pub closed spec fn is_stopped(&self) -> bool {
        self.stopped
    }

    /// An acceptor that has not seen the shutdown flag.
    pub fn new() -> (r: Acceptor)
        ensures
            !r.is_stopped(),
    {
        Acceptor { stopped: false }
    }

    /// Looks at the shutdown flag before an accept; returns whether to accept
    /// (`true`) or to leave the loop (`false`).
    pub fn poll(&mut self, shutdown_requested: bool) -> (r: bool)
        ensures
            final(self).is_stopped() == stopped_after(old(self).is_stopped(), shutdown_requested),
            r == !final(self).is_stopped(),
    {
        if shutdown_requested {
            self.stopped = true;
        }
        !self.stopped
    }

    /// What to do with the outcome of an accept.
    pub fn react(&self, outcome: AcceptOutcome) -> (r: Reaction)
        ensures
            r == reaction_of(outcome),
    {
        match outcome {
            AcceptOutcome::Accepted => Reaction::Dispatch,
            AcceptOutcome::WouldBlock => Reaction::Sleep(POLL_INTERVAL_MS),
            AcceptOutcome::Failed => Reaction::Report,
        }
    }
}

/// Once the shutdown flag is set, the acceptor looks at it again within one
/// polling interval whatever the last accept gave, that look ends the loop,
/// and the loop stays ended whatever the flag reads afterwards.
pub proof fn lemma_shutdown_within_one_interval(
    stopped: bool,
    outcome: AcceptOutcome,
    later: bool,
)
    ensures
        pause_ms(reaction_of(outcome)) <= POLL_INTERVAL_MS,
        stopped_after(stopped, true),
        stopped_after(stopped_after(stopped, true), later),
{
}

} // verus!
