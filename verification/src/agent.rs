//! The agent's control flow as a step machine.
//!
//! The agent's life is a straight line with one loop: join the wireless
//! network, probe the gateway once, then patrol — poll the status
//! endpoint, and when the body sets the wake signal, broadcast the
//! magic packet and notify the remote endpoint, then sleep and poll
//! again.  Every failure during the patrol — a transport failure or a
//! body that parses as no boolean — aborts it and restarts the device;
//! a failure while joining or probing stops the agent without a
//! restart.  Each function here takes the outcome of one step, handed
//! in by the process that performed it, and decides the next phase.

use vstd::prelude::*;
use crate::body::{parse_signal, spec_parse_signal, spec_true_literal};

verus! {

/// The phases of the agent's life.  `Join` through `Sleep` name the
/// action the process performs next; `Halt` stops the agent for good
/// and `Restart` reboots the device.
#[derive(Clone, Copy, Debug, PartialEq, Eq, Structural)]
pub enum Phase {
    /// Associate with the configured access point.
    Join,
    /// Ping the gateway to verify the link.
    Probe,
    /// Fetch the wake signal from the status endpoint.
    Poll,
    /// Broadcast the magic packet to the target device.
    Wake,
    /// Report completion to the remote endpoint.
    Notify,
    /// Wait out the poll interval.
    Sleep,
    /// Stop without restarting the device.
    Halt,
    /// Restart the device.
    Restart,
}

/// The phase after the join attempt: probe the link when the network
/// is up, stop otherwise.
pub open spec fn spec_after_join(connected: bool) -> Phase {
    if connected {
        Phase::Probe
    } else {
        Phase::Halt
    }
}

/// Decides the phase after the join attempt settled.
pub fn after_join(connected: bool) -> (next: Phase)
    ensures
        next == spec_after_join(connected),
{
    if connected {
        Phase::Probe
    } else {
        Phase::Halt
    }
}

/// The phase after the gateway probe: start the patrol when the probe
/// ran and every transmitted ping was answered; stop when a ping went
/// unanswered, and also when the probe could not run at all (no
/// counters came back).
pub open spec fn spec_after_probe(counters: Option<(u32, u32)>) -> Phase {
    match counters {
        Some(c) => if c.0 == c.1 {
            Phase::Poll
        } else {
            Phase::Halt
        },
        None => Phase::Halt,
    }
}

/// Decides the phase after the gateway probe from the transmitted and
/// received ping counts, if the probe ran.
pub fn after_probe(counters: &Option<(u32, u32)>) -> (next: Phase)
    ensures
        next == spec_after_probe(*counters),
{
    match counters {
        Some((transmitted, received)) => if transmitted == received {
            Phase::Poll
        } else {
            Phase::Halt
        },
        None => Phase::Halt,
    }
}

/// The phase after the poll: the body `true` leads to the wake
/// broadcast and the body `false` straight to the sleep; no body (the
/// fetch failed) or a body that parses as no boolean restarts the
/// device.
pub open spec fn spec_after_poll(body: Option<Seq<u8>>) -> Phase {
    match body {
        Some(b) => match spec_parse_signal(b) {
            Some(true) => Phase::Wake,
            Some(false) => Phase::Sleep,
            None => Phase::Restart,
        },
        None => Phase::Restart,
    }
}

/// Decides the phase after the poll from the fetched body, if any.
pub fn after_poll(body: &Option<Vec<u8>>) -> (next: Phase)
    ensures
        next == match body {
            Some(b) => spec_after_poll(Some(b@)),
            None => spec_after_poll(None),
        },
{
    match body {
        Some(b) => match parse_signal(b.as_slice()) {
            Some(true) => Phase::Wake,
            Some(false) => Phase::Sleep,
            None => Phase::Restart,
        },
        None => Phase::Restart,
    }
}

/// The phase after the wake broadcast: notify the remote endpoint when
/// the packet went out, restart the device otherwise.
pub open spec fn spec_after_wake(sent: bool) -> Phase {
    if sent {
        Phase::Notify
    } else {
        Phase::Restart
    }
}

/// Decides the phase after the attempt to broadcast the magic packet.
pub fn after_wake(sent: bool) -> (next: Phase)
    ensures
        next == spec_after_wake(sent),
{
    if sent {
        Phase::Notify
    } else {
        Phase::Restart
    }
}

/// The phase after the completion report: sleep when the report was
/// delivered and its response body read as a boolean literal — which
/// of the two it read as is of no consequence; restart the device
/// when the report failed or its body parses as no boolean.
pub open spec fn spec_after_notify(body: Option<Seq<u8>>) -> Phase {
    match body {
        Some(b) => if spec_parse_signal(b) is Some {
            Phase::Sleep
        } else {
            Phase::Restart
        },
        None => Phase::Restart,
    }
}

/// Decides the phase after the attempt to report completion, from the
/// response body the report drew, if any.
pub fn after_notify(body: &Option<Vec<u8>>) -> (next: Phase)
    ensures
        next == match body {
            Some(b) => spec_after_notify(Some(b@)),
            None => spec_after_notify(None),
        },
{
    match body {
        Some(b) => match parse_signal(b.as_slice()) {
            Some(_) => Phase::Sleep,
            None => Phase::Restart,
        },
        None => Phase::Restart,
    }
}

/// The phase after the poll interval has passed: poll again.
pub open spec fn spec_after_sleep() -> Phase {
    Phase::Poll
}

/// Decides the phase after the sleep.
pub fn after_sleep() -> (next: Phase)
    ensures
        next == spec_after_sleep(),
{
    Phase::Poll
}

/// The wake broadcast is commanded if and only if the poll fetched a
/// body and that body is the byte string `true`.
pub proof fn lemma_wake_iff_body_true(body: Option<Seq<u8>>)
    ensures
        (spec_after_poll(body) == Phase::Wake) <==> (body == Some(spec_true_literal())),
{
}

/// The patrol never stops the agent silently: after a poll the agent
/// wakes, sleeps, or restarts the device, and never halts.
pub proof fn lemma_poll_never_halts(body: Option<Seq<u8>>)
    ensures
        spec_after_poll(body) != Phase::Halt,
        spec_after_poll(body) == Phase::Wake || spec_after_poll(body) == Phase::Sleep
            || spec_after_poll(body) == Phase::Restart,
{
}

} // verus!
