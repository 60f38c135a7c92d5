use vstd::prelude::*;

use crate::sensor::{Ready, SensorEvent};

verus! {

/// Which of two ready sources a wait hands out first.
#[derive(Clone, Copy, Debug, PartialEq, Eq, Structural)]
pub enum Side {
    Inbound,
    Tick,
}

/// The two sources that a sensor loop waits on: an inbound event and a tick.
/// A source that has completed holds its event until it is taken, so the one
/// that loses a race is still there for the next iteration.
#[derive(Clone, Copy, Debug, PartialEq, Eq, Structural)]
pub struct Race {
    pub inbound: Option<SensorEvent>,
    /// The epoch of the ticker whose tick is pending.
    pub tick: Option<u64>,
}

/// The race after taking one event, and the event taken.
pub open spec fn take_spec(r: Race, prefer: Side) -> (Race, Option<Ready>) {
    match (r.inbound, r.tick) {
        (Some(ev), Some(e)) => match prefer {
            Side::Inbound => (Race { inbound: None, tick: Some(e) }, Some(Ready::Inbound(ev))),
            Side::Tick => (Race { inbound: Some(ev), tick: None }, Some(Ready::Tick(e))),
        },
        (Some(ev), None) => (Race { inbound: None, tick: None }, Some(Ready::Inbound(ev))),
        (None, Some(e)) => (Race { inbound: None, tick: None }, Some(Ready::Tick(e))),
        (None, None) => (r, None),
    }
}

impl Race {
    /// A race in which neither source has completed.
    pub fn new() -> (r: Race)
        ensures
            r.inbound is None,
            r.tick is None,
    {
        Race { inbound: None, tick: None }
    }

    /// Records a completed receive. Refused, with nothing changed, while an
    /// earlier inbound event is still pending.
    pub fn offer_inbound(&mut self, ev: SensorEvent) -> (accepted: bool)
        ensures
            accepted == (old(self).inbound is None),
            accepted ==> *final(self) == (Race { inbound: Some(ev), ..*old(self) }),
            !accepted ==> *final(self) == *old(self),
    {
        if self.inbound.is_none() {
            self.inbound = Some(ev);
            true
        } else {
            false
        }
    }

    /// Records a completed tick of the ticker with epoch `epoch`. Refused, with
    /// nothing changed, while an earlier tick is still pending.
    pub fn offer_tick(&mut self, epoch: u64) -> (accepted: bool)
        ensures
            accepted == (old(self).tick is None),
            accepted ==> *final(self) == (Race { tick: Some(epoch), ..*old(self) }),
            !accepted ==> *final(self) == *old(self),
    {
        if self.tick.is_none() {
            self.tick = Some(epoch);
            true
        } else {
            false
        }
    }

    /// Takes one ready event: `prefer` breaks a tie, and the other source
    /// keeps its event.
    pub fn take(&mut self, prefer: Side) -> (r: Option<Ready>)
        ensures
            (*final(self), r) == take_spec(*old(self), prefer),
    {
        match (self.inbound, self.tick) {
            (Some(ev), Some(e)) => match prefer {
                Side::Inbound => {
                    self.inbound = None;
                    Some(Ready::Inbound(ev))
                },
                Side::Tick => {
                    self.tick = None;
                    Some(Ready::Tick(e))
                },
            },
            (Some(ev), None) => {
                self.inbound = None;
                Some(Ready::Inbound(ev))
            },
            (None, Some(e)) => {
                self.tick = None;
                Some(Ready::Tick(e))
            },
            (None, None) => None,
        }
    }
}

/// When an inbound event and a tick are ready together, each iteration takes
/// exactly one of them and the other is taken on the next: both are handled
/// once, none is lost, and the race is then empty, whichever way each tie is
/// broken.
pub proof fn lemma_race_fairness(r: Race, first: Side, second: Side)
    requires
        r.inbound is Some,
        r.tick is Some,
    ensures
        ({
            let (r1, a) = take_spec(r, first);
            let (r2, b) = take_spec(r1, second);
            &&& a is Some && b is Some
            &&& a != b
            &&& a == Some(Ready::Inbound(r.inbound->0)) || a == Some(Ready::Tick(r.tick->0))
            &&& b == Some(Ready::Inbound(r.inbound->0)) || b == Some(Ready::Tick(r.tick->0))
            &&& r2.inbound is None && r2.tick is None
        }),
{
}

} // verus!
