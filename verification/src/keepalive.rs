use vstd::prelude::*;

verus! {

/// A one-shot timer to be set: it fires once, after `seconds`, under `name`.
#[derive(Clone, Copy, Debug, PartialEq, Eq)]
pub struct TimerRequest {
    pub name: &'static str,
    pub seconds: u64,
}

/// The timer that keeps a connection alive, for an interval in seconds: none
/// for the interval 0, else one of exactly that interval.
pub open spec fn keep_alive_timer(interval: u16) -> Option<TimerRequest> {
    if interval == 0 {
        None
    } else {
        Some(TimerRequest { name: "client_ping", seconds: interval as u64 })
    }
}

/// Arms the keep-alive timer. When it fires, a ping request is due, and the
/// timer is armed again with the same interval.
pub fn arm(interval: u16) -> (timer: Option<TimerRequest>)
    ensures
        timer == keep_alive_timer(interval),
{
    if interval > 0 {
        Some(TimerRequest { name: "client_ping", seconds: interval as u64 })
    } else {
        None
    }
}

} // verus!
