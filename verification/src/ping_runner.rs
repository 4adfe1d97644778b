//! The continuous runner's verified core: its configuration and the send
//! loop's schedule.
//!
//! The runner's two background loops live outside the library, with the
//! threads and the sleeps; the send loop takes every decision — send a
//! round, sleep one interval, stop — from the schedule here, one step at a
//! time.

use crate::addr::Ipv4Address;
use crate::ping_fox::SocketType;
use vstd::prelude::*;

verus! {

/// The continuous runner's configuration.
pub struct PingRunnerConfig {
    /// The destinations every round covers, in order.
    pub ips: Vec<Ipv4Address>,
    /// How many rounds to send.
    pub count: u16,
    /// The pause between consecutive rounds — not between the sends within
    /// one round — in milliseconds.
    pub interval: u64,
    /// How many records and outcomes the internal channels hold.
    pub channel_size: usize,
    /// The kind of socket to open.
    pub socket_type: SocketType,
}

/// What the send loop is to do next.
#[derive(Clone, Copy, Debug, Eq, PartialEq, Structural)]
pub enum SendStep {
    /// Send one round: one request to every destination.
    SendRound,
    /// Sleep one interval, then ask again.
    Sleep,
    /// All rounds are out; the loop is done.
    Finished,
}

/// The send loop's schedule: `count` rounds, one interval's sleep between
/// consecutive rounds and none after the last.
pub struct SendSchedule {
    count: u16,
    rounds_sent: u16,
    sleep_pending: bool,
}

impl SendSchedule {
    /// How many rounds the schedule covers in all.
    pub closed spec fn total_rounds(&self) -> u16 {
        self.count
    }

    /// How many rounds have been handed out so far.
    pub closed spec fn rounds_sent(&self) -> u16 {
        self.rounds_sent
    }

    /// Whether the next step is the sleep between two rounds.
    pub closed spec fn sleep_pending(&self) -> bool {
        self.sleep_pending
    }

    /// No more rounds than the total, and a sleep only ever stands between
    /// two rounds.
    pub open spec fn well_formed(&self) -> bool {
        &&& self.rounds_sent() <= self.total_rounds()
        &&& (self.sleep_pending() ==> self.rounds_sent() < self.total_rounds())
    }

    /// A fresh schedule of `count` rounds.
    pub fn new(count: u16) -> (r: SendSchedule)
        ensures
            r.well_formed(),
            r.total_rounds() == count,
            r.rounds_sent() == 0,
            !r.sleep_pending(),
    {
        SendSchedule { count, rounds_sent: 0, sleep_pending: false }
    }

    /// The send loop's next step.  Rounds and sleeps strictly alternate: a
    /// sleep is handed out exactly between two rounds, and `Finished` comes
    /// once all `count` rounds are out and then forever after.
    pub fn next_step(&mut self) -> (r: SendStep)
        requires
            old(self).well_formed(),
        ensures
            final(self).well_formed(),
            final(self).total_rounds() == old(self).total_rounds(),
            old(self).sleep_pending() ==> {
                &&& r == SendStep::Sleep
                &&& final(self).rounds_sent() == old(self).rounds_sent()
                &&& !final(self).sleep_pending()
            },
            !old(self).sleep_pending() && old(self).rounds_sent() < old(self).total_rounds() ==> {
                &&& r == SendStep::SendRound
                &&& final(self).rounds_sent() == old(self).rounds_sent() + 1
                &&& final(self).sleep_pending() == (old(self).rounds_sent() + 1 < old(
                    self,
                ).total_rounds())
            },
            !old(self).sleep_pending() && old(self).rounds_sent() == old(self).total_rounds() ==> {
                &&& r == SendStep::Finished
                &&& *final(self) == *old(self)
            },
    {
        if self.sleep_pending {
            self.sleep_pending = false;
            SendStep::Sleep
        } else if self.rounds_sent < self.count {
            self.rounds_sent = self.rounds_sent + 1;
            self.sleep_pending = self.rounds_sent < self.count;
            SendStep::SendRound
        } else {
            SendStep::Finished
        }
    }
}

} // verus!
