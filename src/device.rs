use vstd::prelude::*;

use crate::battery::{Battery, BatteryAction, GenericBatteryMessage};
use crate::onoff::{ButtonAction, ButtonOnOff, DisplayAction, DisplayOnOff, GenericOnOffMessage};
use crate::sensor::{cadence_of, step_spec, PublicationCadence, Ready, Schedule, Sensor, SensorAction};

verus! {

/// Company identifier of the node.
pub const COMPANY_ID: u16 = 0x0003;

/// Product identifier of the node.
pub const PRODUCT_ID: u16 = 0x0001;

/// Version identifier of the node.
pub const VERSION_ID: u16 = 0x0001;

/// Where on the board an element sits.
#[derive(Clone, Copy, Debug, PartialEq, Eq, Structural)]
pub enum Location {
    Front,
    Left,
    Right,
}

impl Location {
    /// The location tag as announced to the network.
    pub fn tag(&self) -> (r: &'static str)
        ensures
            *self == Location::Front ==> r@ == "front"@,
            *self == Location::Left ==> r@ == "left"@,
            *self == Location::Right ==> r@ == "right"@,
    {
        match self {
            Location::Front => "front",
            Location::Left => "left",
            Location::Right => "right",
        }
    }
}

/// The endpoints of the node, each bound to one model.
#[derive(Clone, Copy, Debug, PartialEq, Eq, Structural)]
pub enum Endpoint {
    /// Generic on/off server.
    Display,
    /// Generic battery server.
    Battery,
    /// Sensor setup server.
    Sensor,
    /// Generic on/off client of the left button.
    ButtonA,
    /// Generic on/off client of the right button.
    ButtonB,
}

/// One element of the node: a location and the endpoints it holds.
#[derive(Debug, PartialEq, Eq)]
pub struct Element {
    pub location: Location,
    pub endpoints: Vec<Endpoint>,
}

/// The registration table of the node: its identity and its elements in
/// address order.
#[derive(Debug, PartialEq, Eq)]
pub struct Composition {
    pub cid: u16,
    pub pid: u16,
    pub vid: u16,
    pub elements: Vec<Element>,
}

/// The elements of the node: location and endpoints, in address order.
pub open spec fn topology() -> Seq<(Location, Seq<Endpoint>)> {
    seq![
        (Location::Front, seq![Endpoint::Display, Endpoint::Battery, Endpoint::Sensor]),
        (Location::Left, seq![Endpoint::ButtonA]),
        (Location::Right, seq![Endpoint::ButtonB]),
    ]
}

/// The endpoints at the front of the board.
#[derive(Clone, Copy, Debug, PartialEq, Eq, Structural)]
pub struct Front {
    pub display: DisplayOnOff,
    pub battery: Battery,
    pub sensor: Sensor,
}

/// The element of the left button.
#[derive(Clone, Copy, Debug, PartialEq, Eq, Structural)]
pub struct ButtonA {
    pub button: ButtonOnOff,
}

/// The element of the right button.
#[derive(Clone, Copy, Debug, PartialEq, Eq, Structural)]
pub struct ButtonB {
    pub button: ButtonOnOff,
}

/// The node: every endpoint's state. Hardware handles and transport contexts
/// are held by the runtime.
#[derive(Clone, Copy, Debug, PartialEq, Eq, Structural)]
pub struct Device {
    pub front: Front,
    pub btn_a: ButtonA,
    pub btn_b: ButtonB,
}

/// An event addressed to one endpoint of the node.
#[derive(Clone, Copy, Debug, PartialEq, Eq, Structural)]
pub enum DeviceEvent {
    Display(GenericOnOffMessage),
    Battery(GenericBatteryMessage),
    Sensor(Ready),
    /// A falling edge of the left button.
    ButtonA,
    /// A falling edge of the right button.
    ButtonB,
}

/// What the runtime must do after an event, for the endpoint it went to.
#[derive(Clone, Copy, Debug, PartialEq, Eq, Structural)]
pub enum DeviceAction {
    Display(DisplayAction),
    Battery(BatteryAction),
    Sensor(SensorAction),
    Button(Location, ButtonAction),
}

/// The failure of the node's dispatch as a whole.
#[derive(Clone, Copy, Debug, PartialEq, Eq, Structural)]
pub struct FatalDispatchError {}

/// The state of a node as it starts: a silent sensor.
pub open spec fn initial_device() -> Device {
    Device {
        front: Front {
            display: DisplayOnOff {},
            battery: Battery {},
            sensor: Sensor { schedule: crate::sensor::Schedule::Silent, next_epoch: 0 },
        },
        btn_a: ButtonA { button: ButtonOnOff {} },
        btn_b: ButtonB { button: ButtonOnOff {} },
    }
}

/// The node after one event: the event goes to its endpoint alone.
pub open spec fn handle_spec(d: Device, ev: DeviceEvent) -> (Device, DeviceAction) {
    match ev {
        DeviceEvent::Display(m) => (d, DeviceAction::Display(crate::onoff::display_spec(m))),
        DeviceEvent::Battery(_) => (d, DeviceAction::Battery(BatteryAction::Idle)),
        DeviceEvent::Sensor(r) => {
            let (s, a) = step_spec(d.front.sensor, r);
            (Device { front: Front { sensor: s, ..d.front }, ..d }, DeviceAction::Sensor(a))
        },
        DeviceEvent::ButtonA => (d, DeviceAction::Button(Location::Left, ButtonAction::ReportPress)),
        DeviceEvent::ButtonB => (d, DeviceAction::Button(Location::Right, ButtonAction::ReportPress)),
    }
}

impl Device {
    pub open spec fn wf(self) -> bool {
        self.front.sensor.wf()
    }

    /// Binds each endpoint to its element.
    pub fn new(sensor: Sensor) -> (r: Device)
        requires
            sensor.wf(),
        ensures
            r.wf(),
            r == (Device { front: Front { sensor, ..initial_device().front }, ..initial_device() }),
    {
        Device {
            front: Front { display: DisplayOnOff::new(), battery: Battery::new(), sensor },
            btn_a: ButtonA { button: ButtonOnOff::new() },
            btn_b: ButtonB { button: ButtonOnOff::new() },
        }
    }

    /// Routes one event to its endpoint and returns that endpoint's action.
    pub fn handle(&mut self, ev: DeviceEvent) -> (r: DeviceAction)
        requires
            old(self).wf(),
        ensures
            (*final(self), r) == handle_spec(*old(self), ev),
            final(self).wf(),
    {
        match ev {
            DeviceEvent::Display(m) => DeviceAction::Display(self.front.display.on_message(m)),
            DeviceEvent::Battery(m) => DeviceAction::Battery(self.front.battery.on_message(m)),
            DeviceEvent::Sensor(r) => DeviceAction::Sensor(self.front.sensor.step(r)),
            DeviceEvent::ButtonA => DeviceAction::Button(
                Location::Left,
                self.btn_a.button.on_falling_edge(),
            ),
            DeviceEvent::ButtonB => DeviceAction::Button(
                Location::Right,
                self.btn_b.button.on_falling_edge(),
            ),
        }
    }

    /// Starts the node afresh after its dispatch failed: nothing of the
    /// earlier run is kept.
    pub fn restart(&mut self, e: FatalDispatchError)
        ensures
            *final(self) == initial_device(),
            final(self).wf(),
    {
        *self = Device::new(Sensor::new());
    }

    /// The registration table of the node.
    pub fn composition() -> (r: Composition)
        ensures
            r.cid == COMPANY_ID,
            r.pid == PRODUCT_ID,
            r.vid == VERSION_ID,
            r.elements@.len() == topology().len(),
            forall|i: int|
                0 <= i < topology().len() ==> (#[trigger] r.elements@[i]).location == topology()[i].0
                    && r.elements@[i].endpoints@ == topology()[i].1,
    {
        let front = Element {
            location: Location::Front,
            endpoints: vec![Endpoint::Display, Endpoint::Battery, Endpoint::Sensor],
        };
        let left = Element { location: Location::Left, endpoints: vec![Endpoint::ButtonA] };
        let right = Element { location: Location::Right, endpoints: vec![Endpoint::ButtonB] };
        let r = Composition {
            cid: COMPANY_ID,
            pid: PRODUCT_ID,
            vid: VERSION_ID,
            elements: vec![front, left, right],
        };
        assert(r.elements@[0].endpoints@ =~= topology()[0].1);
        assert(r.elements@[1].endpoints@ =~= topology()[1].1);
        assert(r.elements@[2].endpoints@ =~= topology()[2].1);
        r
    }
}

/// The node after a sequence of events.
pub open spec fn device_after(d: Device, evs: Seq<DeviceEvent>) -> Device
    decreases evs.len(),
{
    if evs.len() == 0 {
        d
    } else {
        handle_spec(device_after(d, evs.drop_last()), evs.last()).0
    }
}

/// Whatever events a node has handled, the state that `restart` leaves after a
/// failed dispatch is that of a node just built: every endpoint is as it was
/// except that the sensor is silent again, with no ticker, so no cadence is
/// carried over.
pub proof fn lemma_restart_isolation(d: Device, evs: Seq<DeviceEvent>)
    requires
        d.wf(),
    ensures
        initial_device().wf(),
        initial_device() == (Device {
            front: Front {
                sensor: Sensor { schedule: Schedule::Silent, next_epoch: 0 },
                ..device_after(d, evs).front
            },
            ..device_after(d, evs)
        }),
        cadence_of(initial_device().front.sensor.schedule) == PublicationCadence::Off,
        !(initial_device().front.sensor.schedule is Periodic),
    decreases evs.len(),
{
    if evs.len() > 0 {
        lemma_restart_isolation(d, evs.drop_last());
    }
}

} // verus!
