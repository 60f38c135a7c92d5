use vstd::prelude::*;

use crate::time::Duration;

verus! {

/// How a sensor endpoint publishes unsolicited status updates.
#[derive(Clone, Copy, Debug, PartialEq, Eq, Structural)]
pub enum PublicationCadence {
    /// Publish a fresh reading every period.
    Periodic(Duration),
    /// Publish on change; no change detection exists, so nothing is published.
    OnChange,
    /// Publish nothing.
    Off,
}

/// A live periodic timer: its period and the epoch that tells it apart from
/// every ticker that it replaced.
#[derive(Clone, Copy, Debug, PartialEq, Eq, Structural)]
pub struct Ticker {
    pub period: Duration,
    pub epoch: u64,
}

/// The schedule of a sensor endpoint. A ticker exists exactly in `Periodic`.
#[derive(Clone, Copy, Debug, PartialEq, Eq, Structural)]
pub enum Schedule {
    Silent,
    OnChange,
    Periodic(Ticker),
}

/// A temperature reading, in half degrees Celsius.
#[derive(Clone, Copy, Debug, PartialEq, Eq, Structural)]
pub struct SensorPayload {
    pub temperature: i8,
}

/// The status message that carries one reading.
#[derive(Clone, Copy, Debug, PartialEq, Eq, Structural)]
pub struct SensorStatus {
    pub payload: SensorPayload,
}

impl SensorStatus {
    pub fn new(payload: SensorPayload) -> (r: SensorStatus)
        ensures
            r.payload == payload,
    {
        SensorStatus { payload }
    }
}

/// Application messages of the sensor model.
#[derive(Clone, Copy, Debug, PartialEq, Eq, Structural)]
pub enum SensorMessage {
    Get,
    Status(SensorStatus),
}

/// What the transport delivers to a sensor endpoint.
#[derive(Clone, Copy, Debug, PartialEq, Eq, Structural)]
pub enum SensorEvent {
    /// A change of publication cadence.
    Control(PublicationCadence),
    /// An application message.
    Message(SensorMessage),
}

/// The event that won the race of one loop iteration.
#[derive(Clone, Copy, Debug, PartialEq, Eq, Structural)]
pub enum Ready {
    Inbound(SensorEvent),
    /// A tick of the ticker with the given epoch.
    Tick(u64),
}

/// What the runtime must do after one event.
#[derive(Clone, Copy, Debug, PartialEq, Eq, Structural)]
pub enum SensorAction {
    Idle,
    /// Drop any running ticker and start this one.
    StartTicker(Ticker),
    /// Drop the running ticker.
    StopTicker,
    /// Read the sensor and hand the outcome to `Sensor::read`.
    Read,
}

/// Why a reading could not be published.
#[derive(Clone, Copy, Debug, PartialEq, Eq, Structural)]
pub enum ReadError {
    /// The hardware failed to measure.
    Hardware,
    /// The scaled temperature does not fit the payload.
    OutOfRange,
}

/// The state of a sensor endpoint.
#[derive(Clone, Copy, Debug, PartialEq, Eq, Structural)]
pub struct Sensor {
    pub schedule: Schedule,
    /// The epoch that the next ticker will carry.
    pub next_epoch: u64,
}

/// The factor by which a measured temperature is scaled into the payload.
pub const TEMPERATURE_SCALE: i8 = 2;

/// The epoch after `e`, wrapping at the top of `u64`.
pub open spec fn epoch_after(e: u64) -> u64 {
    if e == u64::MAX {
        0
    } else {
        (e + 1) as u64
    }
}

/// The cadence that a schedule carries out.
pub open spec fn cadence_of(s: Schedule) -> PublicationCadence {
    match s {
        Schedule::Silent => PublicationCadence::Off,
        Schedule::OnChange => PublicationCadence::OnChange,
        Schedule::Periodic(t) => PublicationCadence::Periodic(t.period),
    }
}

/// Whether a tick of the ticker with epoch `e` is due in state `s`.
pub open spec fn tick_fires(s: Sensor, e: u64) -> bool {
    s.schedule matches Schedule::Periodic(t) && t.epoch == e
}

/// The transition on a control event.
pub open spec fn apply_cadence(s: Sensor, c: PublicationCadence) -> (Sensor, SensorAction) {
    let stop = if s.schedule is Periodic {
        SensorAction::StopTicker
    } else {
        SensorAction::Idle
    };
    match c {
        PublicationCadence::Periodic(d) => {
            let t = Ticker { period: d, epoch: s.next_epoch };
            (
                Sensor { schedule: Schedule::Periodic(t), next_epoch: epoch_after(s.next_epoch) },
                SensorAction::StartTicker(t),
            )
        },
        PublicationCadence::OnChange => (Sensor { schedule: Schedule::OnChange, ..s }, stop),
        PublicationCadence::Off => (Sensor { schedule: Schedule::Silent, ..s }, stop),
    }
}

/// The transition on one event.
pub open spec fn step_spec(s: Sensor, ev: Ready) -> (Sensor, SensorAction) {
    match ev {
        Ready::Inbound(SensorEvent::Control(c)) => apply_cadence(s, c),
        Ready::Inbound(SensorEvent::Message(_)) => (s, SensorAction::Idle),
        Ready::Tick(e) => (s, if tick_fires(s, e) { SensorAction::Read } else { SensorAction::Idle }),
    }
}

/// The payload for a measured temperature, or why there is none.
pub open spec fn read_spec(measured: Result<i8, ReadError>) -> Result<SensorPayload, ReadError> {
    match measured {
        Ok(t) => if i8::MIN <= t * TEMPERATURE_SCALE <= i8::MAX {
            Ok(SensorPayload { temperature: (t * TEMPERATURE_SCALE) as i8 })
        } else {
            Err(ReadError::OutOfRange)
        },
        Err(e) => Err(e),
    }
}

impl Sensor {
    /// Every ticker that the state has handed out carries an epoch other than
    /// the next one.
    pub open spec fn wf(self) -> bool {
        self.schedule matches Schedule::Periodic(t) ==> self.next_epoch == epoch_after(t.epoch)
    }

    /// Whether the state is well formed, for callers outside verified code.
    pub fn is_well_formed(&self) -> (r: bool)
        ensures
            r == self.wf(),
    {
        match self.schedule {
            Schedule::Periodic(t) => self.next_epoch == t.epoch.wrapping_add(1),
            _ => true,
        }
    }

    /// A silent sensor with no ticker.
    pub fn new() -> (r: Sensor)
        ensures
            r.wf(),
            r.schedule == Schedule::Silent,
            r.next_epoch == 0,
    {
        Sensor { schedule: Schedule::Silent, next_epoch: 0 }
    }

    /// The cadence currently in force.
    pub fn cadence(&self) -> (r: PublicationCadence)
        ensures
            r == cadence_of(self.schedule),
    {
        match self.schedule {
            Schedule::Silent => PublicationCadence::Off,
            Schedule::OnChange => PublicationCadence::OnChange,
            Schedule::Periodic(t) => PublicationCadence::Periodic(t.period),
        }
    }

    /// The live ticker, present exactly when the cadence is periodic.
    pub fn ticker(&self) -> (r: Option<Ticker>)
        ensures
            r == (match self.schedule {
                Schedule::Periodic(t) => Some(t),
                _ => None,
            }),
    {
        match self.schedule {
            Schedule::Periodic(t) => Some(t),
            _ => None,
        }
    }

    /// Applies one event to the state and says what the runtime must do.
    pub fn step(&mut self, ev: Ready) -> (r: SensorAction)
        requires
            old(self).wf(),
        ensures
            (*final(self), r) == step_spec(*old(self), ev),
            final(self).wf(),
    {
        match ev {
            Ready::Inbound(SensorEvent::Control(c)) => {
                let stop = if let Schedule::Periodic(_) = self.schedule {
                    SensorAction::StopTicker
                } else {
                    SensorAction::Idle
                };
                match c {
                    PublicationCadence::Periodic(d) => {
                        let t = Ticker { period: d, epoch: self.next_epoch };
                        self.schedule = Schedule::Periodic(t);
                        self.next_epoch = self.next_epoch.wrapping_add(1);
                        SensorAction::StartTicker(t)
                    },
                    PublicationCadence::OnChange => {
                        self.schedule = Schedule::OnChange;
                        stop
                    },
                    PublicationCadence::Off => {
                        self.schedule = Schedule::Silent;
                        stop
                    },
                }
            },
            Ready::Inbound(SensorEvent::Message(_)) => SensorAction::Idle,
            Ready::Tick(e) => {
                match self.schedule {
                    Schedule::Periodic(t) if t.epoch == e => SensorAction::Read,
                    _ => SensorAction::Idle,
                }
            },
        }
    }

    /// Turns a measured temperature into the payload to publish.
    pub fn read(measured: Result<i8, ReadError>) -> (r: Result<SensorPayload, ReadError>)
        ensures
            r == read_spec(measured),
    {
        match measured {
            Ok(t) => match t.checked_mul(TEMPERATURE_SCALE) {
                Some(scaled) => Ok(SensorPayload { temperature: scaled }),
                None => Err(ReadError::OutOfRange),
            },
            Err(e) => Err(e),
        }
    }
}

} // verus!
