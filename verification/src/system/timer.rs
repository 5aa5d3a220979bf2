//! Decisions of the watchdog timers. Each timer task waits, idle, for a
//! request; once armed it waits for the period to elapse, for a stop, or for
//! shutdown. Every watchdog of the gateway follows these decisions.

use std::time::Duration;
use vstd::prelude::*;

verus! {

/// Command for a periodic timer.
#[derive(Debug, Clone, Copy, PartialEq, Eq, Structural)]
pub enum TimerOrder {
    /// Arm it for this many seconds.
    Init(u64),
    Stop,
}

/// A request received by a watchdog.
#[derive(Debug, Clone, Copy)]
pub enum TimerRequest {
    /// Arm for this long.
    Init(Duration),
    Stop,
    /// Any other message on the watchdog's channel.
    Other,
}

/// What an idle watchdog does.
#[derive(Debug, Clone, Copy)]
pub enum IdleDecision {
    /// Arm for this long.
    Arm(Duration),
    /// Stay idle.
    Wait,
    /// The request channel closed: stop the task.
    Exit,
}

/// What ended the wait of an armed watchdog.
#[derive(Debug, Clone, Copy, PartialEq, Eq, Structural)]
pub enum ArmedWake {
    Shutdown,
    Elapsed,
    Stopped,
}

/// What an armed watchdog does next.
#[derive(Debug, Clone, Copy, PartialEq, Eq, Structural)]
pub enum ArmedDecision {
    /// Stop the task.
    Exit,
    /// Report the timeout, then go idle.
    Fire,
    /// Go idle without reporting.
    Disarm,
}

/// An idle watchdog arms on `Init`, ignores stops and other messages, and
/// stops when its channel closed (`None`).
pub fn idle_decision(request: Option<TimerRequest>) -> (r: IdleDecision)
    ensures
        match request {
            Some(TimerRequest::Init(d)) => r matches IdleDecision::Arm(e) && e == d,
            Some(_) => r is Wait,
            None => r is Exit,
        },
{
    match request {
        Some(TimerRequest::Init(d)) => IdleDecision::Arm(d),
        Some(_) => IdleDecision::Wait,
        None => IdleDecision::Exit,
    }
}

/// An armed watchdog reports the timeout when its period elapsed, goes idle
/// silently when stopped, and stops on shutdown.
pub fn armed_decision(wake: ArmedWake) -> (r: ArmedDecision)
    ensures
        r == match wake {
            ArmedWake::Shutdown => ArmedDecision::Exit,
            ArmedWake::Elapsed => ArmedDecision::Fire,
            ArmedWake::Stopped => ArmedDecision::Disarm,
        },
{
    match wake {
        ArmedWake::Shutdown => ArmedDecision::Exit,
        ArmedWake::Elapsed => ArmedDecision::Fire,
        ArmedWake::Stopped => ArmedDecision::Disarm,
    }
}

} // verus!
