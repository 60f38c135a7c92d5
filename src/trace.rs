use vstd::prelude::*;

use crate::sensor::{
    read_spec, step_spec, tick_fires, PublicationCadence, ReadError, Ready, Schedule, Sensor,
    SensorEvent, SensorPayload,
};

verus! {

/// What one loop iteration did with the sensor: `None` when it did not read,
/// `Some(Ok(p))` when it read and published `p`, `Some(Err(e))` when the read
/// failed.
pub type Attempt = Option<Result<SensorPayload, ReadError>>;

/// The state and the attempt of one iteration on event `ev`, where `measured`
/// is what the hardware would give if the iteration reads.
pub open spec fn iterate(s: Sensor, ev: Ready, measured: Result<i8, ReadError>) -> (Sensor, Attempt) {
    let (s2, a) = step_spec(s, ev);
    (s2, if a is Read { Some(read_spec(measured)) } else { None })
}

/// The state after a sequence of events.
pub open spec fn state_after(s: Sensor, evs: Seq<Ready>) -> Sensor
    decreases evs.len(),
{
    if evs.len() == 0 {
        s
    } else {
        step_spec(state_after(s, evs.drop_last()), evs.last()).0
    }
}

/// The attempts of a sequence of events, the i-th read measuring `ms[i]`.
pub open spec fn attempts(s: Sensor, evs: Seq<Ready>, ms: Seq<Result<i8, ReadError>>) -> Seq<Attempt>
    decreases evs.len(),
{
    if evs.len() == 0 {
        seq![]
    } else {
        attempts(s, evs.drop_last(), ms.drop_last()).push(
            iterate(state_after(s, evs.drop_last()), evs.last(), ms[evs.len() - 1]).1,
        )
    }
}

/// Whether an event asks for periodic publication.
pub open spec fn asks_periodic(ev: Ready) -> bool {
    ev matches Ready::Inbound(SensorEvent::Control(PublicationCadence::Periodic(_)))
}

/// Well-formedness is kept along any sequence of events.
pub proof fn lemma_state_after_wf(s: Sensor, evs: Seq<Ready>)
    requires
        s.wf(),
    ensures
        state_after(s, evs).wf(),
    decreases evs.len(),
{
    if evs.len() > 0 {
        lemma_state_after_wf(s, evs.drop_last());
    }
}

/// The attempts list one entry per event.
pub proof fn lemma_attempts_len(s: Sensor, evs: Seq<Ready>, ms: Seq<Result<i8, ReadError>>)
    ensures
        attempts(s, evs, ms).len() == evs.len(),
    decreases evs.len(),
{
    if evs.len() > 0 {
        lemma_attempts_len(s, evs.drop_last(), ms.drop_last());
    }
}

/// Whatever came before, after a control event that asks for period `d` the
/// ticker runs with period `d`, and a tick of the ticker it replaced no longer
/// fires.
pub proof fn lemma_cadence_switch(s: Sensor, evs: Seq<Ready>, d: crate::time::Duration)
    requires
        s.wf(),
    ensures
        ({
            let before = state_after(s, evs);
            let after = state_after(
                s,
                evs.push(Ready::Inbound(SensorEvent::Control(PublicationCadence::Periodic(d)))),
            );
            &&& after.schedule matches Schedule::Periodic(t) && t.period == d
            &&& after.wf()
            &&& before.schedule matches Schedule::Periodic(old_t) ==> !tick_fires(
                after,
                old_t.epoch,
            )
        }),
{
    let ev = Ready::Inbound(SensorEvent::Control(PublicationCadence::Periodic(d)));
    lemma_state_after_wf(s, evs);
    lemma_state_after_wf(s, evs.push(ev));
    assert(evs.push(ev).drop_last() =~= evs);
}

/// While the cadence is not periodic, no event other than a request for
/// periodic publication makes the sensor read or publish, however much time
/// passes.
pub proof fn lemma_silence(s: Sensor, evs: Seq<Ready>, ms: Seq<Result<i8, ReadError>>)
    requires
        s.wf(),
        !(s.schedule is Periodic),
        ms.len() == evs.len(),
        forall|i: int| 0 <= i < evs.len() ==> !asks_periodic(#[trigger] evs[i]),
    ensures
        !(state_after(s, evs).schedule is Periodic),
        attempts(s, evs, ms).len() == evs.len(),
        forall|i: int| 0 <= i < evs.len() ==> #[trigger] attempts(s, evs, ms)[i] is None,
    decreases evs.len(),
{
    lemma_attempts_len(s, evs, ms);
    if evs.len() > 0 {
        let prefix = evs.drop_last();
        assert forall|i: int| 0 <= i < prefix.len() implies !asks_periodic(#[trigger] prefix[i]) by {
            assert(prefix[i] == evs[i]);
        }
        lemma_silence(s, prefix, ms.drop_last());
        assert(!asks_periodic(evs[evs.len() - 1]));
        let prev = attempts(s, prefix, ms.drop_last());
        assert forall|i: int| 0 <= i < evs.len() implies #[trigger] attempts(s, evs, ms)[i] is None by {
            if i < prefix.len() {
                assert(attempts(s, evs, ms)[i] == prev[i]);
            }
        }
    }
}

/// With a ticker running and nothing but its ticks arriving, every tick reads
/// once and publishes what the read gives, whatever earlier reads gave, and
/// the state does not change.
pub proof fn lemma_every_tick_reads(s: Sensor, evs: Seq<Ready>, ms: Seq<Result<i8, ReadError>>)
    requires
        s.wf(),
        s.schedule is Periodic,
        ms.len() == evs.len(),
        forall|i: int| 0 <= i < evs.len() ==> #[trigger] evs[i] == Ready::Tick(s.schedule->Periodic_0.epoch),
    ensures
        state_after(s, evs) == s,
        attempts(s, evs, ms).len() == evs.len(),
        forall|i: int| 0 <= i < evs.len() ==> #[trigger] attempts(s, evs, ms)[i] == Some(read_spec(ms[i])),
    decreases evs.len(),
{
    lemma_attempts_len(s, evs, ms);
    if evs.len() > 0 {
        let prefix = evs.drop_last();
        assert forall|i: int| 0 <= i < prefix.len() implies #[trigger] prefix[i] == Ready::Tick(s.schedule->Periodic_0.epoch) by {
            assert(prefix[i] == evs[i]);
        }
        lemma_every_tick_reads(s, prefix, ms.drop_last());
        assert(evs[evs.len() - 1] == Ready::Tick(s.schedule->Periodic_0.epoch));
        let prev = attempts(s, prefix, ms.drop_last());
        assert forall|i: int| 0 <= i < evs.len() implies #[trigger] attempts(s, evs, ms)[i] == Some(read_spec(ms[i])) by {
            if i < prefix.len() {
                assert(attempts(s, evs, ms)[i] == prev[i]);
                assert(ms.drop_last()[i] == ms[i]);
            }
        }
    }
}

/// A failed read stops nothing: with a ticker running and only its ticks
/// arriving, every tick attempts a read, and a tick publishes exactly when its
/// own read succeeds, whatever the reads before it gave.
pub proof fn lemma_read_failure_resilience(s: Sensor, evs: Seq<Ready>, ms: Seq<Result<i8, ReadError>>)
    requires
        s.wf(),
        s.schedule is Periodic,
        ms.len() == evs.len(),
        forall|i: int| 0 <= i < evs.len() ==> #[trigger] evs[i] == Ready::Tick(s.schedule->Periodic_0.epoch),
    ensures
        state_after(s, evs).schedule == s.schedule,
        forall|i: int| 0 <= i < evs.len() ==> (#[trigger] attempts(s, evs, ms)[i]) is Some,
        forall|i: int|
            0 <= i < evs.len() ==> ((#[trigger] attempts(s, evs, ms)[i])->0 is Ok <==> read_spec(ms[i]) is Ok),
{
    lemma_every_tick_reads(s, evs, ms);
}

} // verus!
