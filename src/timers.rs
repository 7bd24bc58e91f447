//! The heartbeat, test-request and logout deadlines, on a millisecond clock read by the caller.

use vstd::prelude::*;
use crate::inbound::{logout_duration, test_request_duration};
use crate::session::Event;

verus! {

/// One of the three timers.
#[derive(Debug, Clone, Copy, PartialEq, Eq, Structural)]
pub enum Timer {
    Heartbeat,
    TestRequest,
    Logout,
}

/// `a + b`, or `u64::MAX` when that does not fit.
pub open spec fn sat_add(a: u64, b: u64) -> u64 {
    if a + b > u64::MAX {
        u64::MAX
    } else {
        (a + b) as u64
    }
}

fn add_sat(a: u64, b: u64) -> (r: u64)
    ensures
        r == sat_add(a, b),
{
    if a > u64::MAX - b {
        u64::MAX
    } else {
        a + b
    }
}

/// The durations (H, 1.7·H, 2·H) and the next deadline of each timer; the logout timer counts
/// only once a Logout has been sent.
#[derive(Debug, Clone, Copy, PartialEq, Eq, Structural)]
pub struct FixTimeouts {
    pub heartbeat_ms: u64,
    pub test_request_ms: u64,
    pub logout_ms: u64,
    pub next_heartbeat: u64,
    pub next_test_request: u64,
    pub next_logout: u64,
    pub awaiting_logout: bool,
}

impl FixTimeouts {
    /// Timers for the heartbeat interval `heartbeat_ms`, all started at `now`.
    pub fn new(heartbeat_ms: u64, now: u64) -> (r: FixTimeouts)
        requires
            heartbeat_ms <= u64::MAX / 17,
        ensures
            r.heartbeat_ms == heartbeat_ms && r.test_request_ms == heartbeat_ms * 17 / 10
                && r.logout_ms == heartbeat_ms * 2,
            r.next_heartbeat == sat_add(now, r.heartbeat_ms),
            r.next_test_request == sat_add(now, r.test_request_ms),
            r.next_logout == sat_add(now, r.logout_ms),
            !r.awaiting_logout,
    {
        let tr = test_request_duration(heartbeat_ms);
        let lo = logout_duration(heartbeat_ms);
        FixTimeouts {
            heartbeat_ms,
            test_request_ms: tr,
            logout_ms: lo,
            next_heartbeat: add_sat(now, heartbeat_ms),
            next_test_request: add_sat(now, tr),
            next_logout: add_sat(now, lo),
            awaiting_logout: false,
        }
    }

    /// Restarts timer `t` at `now`.
    pub fn reset(&mut self, t: Timer, now: u64)
        ensures
            final(self).heartbeat_ms == old(self).heartbeat_ms,
            final(self).test_request_ms == old(self).test_request_ms,
            final(self).logout_ms == old(self).logout_ms,
            final(self).awaiting_logout == old(self).awaiting_logout,
            final(self).next_heartbeat == if t == Timer::Heartbeat {
                sat_add(now, old(self).heartbeat_ms)
            } else {
                old(self).next_heartbeat
            },
            final(self).next_test_request == if t == Timer::TestRequest {
                sat_add(now, old(self).test_request_ms)
            } else {
                old(self).next_test_request
            },
            final(self).next_logout == if t == Timer::Logout {
                sat_add(now, old(self).logout_ms)
            } else {
                old(self).next_logout
            },
    {
        match t {
            Timer::Heartbeat => {
                self.next_heartbeat = add_sat(now, self.heartbeat_ms);
            },
            Timer::TestRequest => {
                self.next_test_request = add_sat(now, self.test_request_ms);
            },
            Timer::Logout => {
                self.next_logout = add_sat(now, self.logout_ms);
            },
        }
    }

    /// A Logout has gone out: the logout timer starts at `now` and is the only one that counts.
    pub fn start_logout(&mut self, now: u64)
        ensures
            *final(self) == (FixTimeouts {
                awaiting_logout: true,
                next_logout: sat_add(now, old(self).logout_ms),
                ..*old(self)
            }),
    {
        self.awaiting_logout = true;
        self.next_logout = add_sat(now, self.logout_ms);
    }

    /// The peer's HeartBtInt: the durations become (H, 1.7·H, 2·H) and all three timers restart
    /// at `now`.
    pub fn set_durations(&mut self, heartbeat_ms: u64, now: u64)
        requires
            heartbeat_ms <= u64::MAX / 17,
        ensures
            *final(self) == (FixTimeouts {
                awaiting_logout: old(self).awaiting_logout,
                ..FixTimeouts::spec_new(heartbeat_ms, now)
            }),
    {
        let aw = self.awaiting_logout;
        *self = FixTimeouts::new(heartbeat_ms, now);
        self.awaiting_logout = aw;
    }

    pub open spec fn spec_new(heartbeat_ms: u64, now: u64) -> FixTimeouts {
        FixTimeouts {
            heartbeat_ms,
            test_request_ms: (heartbeat_ms * 17 / 10) as u64,
            logout_ms: (heartbeat_ms * 2) as u64,
            next_heartbeat: sat_add(now, heartbeat_ms),
            next_test_request: sat_add(now, (heartbeat_ms * 17 / 10) as u64),
            next_logout: sat_add(now, (heartbeat_ms * 2) as u64),
            awaiting_logout: false,
        }
    }

    /// The timer that expires first and when: the logout timer once a Logout is out, else the
    /// earlier of the heartbeat and test-request timers (the test request on a tie).
    pub fn next_expiring(&self) -> (r: (Timer, u64))
        ensures
            r == (if self.awaiting_logout {
                (Timer::Logout, self.next_logout)
            } else if self.next_heartbeat < self.next_test_request {
                (Timer::Heartbeat, self.next_heartbeat)
            } else {
                (Timer::TestRequest, self.next_test_request)
            }),
    {
        if self.awaiting_logout {
            (Timer::Logout, self.next_logout)
        } else if self.next_heartbeat < self.next_test_request {
            (Timer::Heartbeat, self.next_heartbeat)
        } else {
            (Timer::TestRequest, self.next_test_request)
        }
    }
}

/// The event a timer's expiry stands for.
pub fn timer_event(t: Timer) -> (r: Event)
    ensures
        t == Timer::Heartbeat ==> r is SendHeartbeat,
        t == Timer::TestRequest ==> r is SendTestRequest,
        t == Timer::Logout ==> r is LogoutExpired,
{
    match t {
        Timer::Heartbeat => Event::SendHeartbeat,
        Timer::TestRequest => Event::SendTestRequest(0),
        Timer::Logout => Event::LogoutExpired,
    }
}

} // verus!
