use mesh_node::battery::{Battery, BatteryAction, GenericBatteryMessage, GenericBatteryStatus};
use mesh_node::device::{
    Device, DeviceAction, DeviceEvent, Endpoint, FatalDispatchError, Location, COMPANY_ID,
    PRODUCT_ID, VERSION_ID,
};
use mesh_node::onoff::{
    ButtonAction, ButtonOnOff, DisplayAction, DisplayOnOff, GenericOnOffMessage, GenericOnOffSet,
    GenericOnOffStatus, ScrollText,
};
use mesh_node::race::{Race, Side};
use mesh_node::sensor::{
    PublicationCadence, ReadError, Ready, Schedule, Sensor, SensorAction, SensorEvent,
    SensorMessage, SensorPayload, SensorStatus, Ticker,
};
use mesh_node::time::Duration;

fn control(c: PublicationCadence) -> Ready {
    Ready::Inbound(SensorEvent::Control(c))
}

fn periodic(secs: u64) -> Ready {
    control(PublicationCadence::Periodic(Duration::from_secs(secs)))
}

fn set(on_off: u8) -> GenericOnOffSet {
    GenericOnOffSet { on_off, tid: 0 }
}

#[test]
fn duration_units() {
    assert_eq!(Duration::from_secs(5).as_millis(), 5000);
    assert_eq!(Duration::from_millis(250).as_millis(), 250);
    assert_eq!(Duration::from_secs(0), Duration::from_millis(0));
}

#[test]
fn sensor_starts_silent() {
    let s = Sensor::new();
    assert_eq!(s.cadence(), PublicationCadence::Off);
    assert_eq!(s.ticker(), None);
}

#[test]
fn periodic_control_starts_ticker() {
    let mut s = Sensor::new();
    let a = s.step(periodic(5));
    let t = Ticker { period: Duration::from_secs(5), epoch: 0 };
    assert_eq!(a, SensorAction::StartTicker(t));
    assert_eq!(s.ticker(), Some(t));
    assert_eq!(s.cadence(), PublicationCadence::Periodic(Duration::from_secs(5)));
}

#[test]
fn cadence_switch_replaces_ticker() {
    let mut s = Sensor::new();
    s.step(periodic(5));
    s.step(control(PublicationCadence::OnChange));
    s.step(periodic(2));
    let a = s.step(periodic(7));
    assert_eq!(a, SensorAction::StartTicker(Ticker { period: Duration::from_secs(7), epoch: 2 }));
    assert_eq!(s.ticker().map(|t| t.period), Some(Duration::from_secs(7)));
    // Ticks of the replaced tickers no longer fire.
    assert_eq!(s.step(Ready::Tick(0)), SensorAction::Idle);
    assert_eq!(s.step(Ready::Tick(1)), SensorAction::Idle);
    assert_eq!(s.step(Ready::Tick(2)), SensorAction::Read);
}

#[test]
fn on_change_and_off_stop_ticker() {
    let mut s = Sensor::new();
    assert_eq!(s.step(control(PublicationCadence::OnChange)), SensorAction::Idle);
    s.step(periodic(1));
    assert_eq!(s.step(control(PublicationCadence::OnChange)), SensorAction::StopTicker);
    assert_eq!(s.schedule, Schedule::OnChange);
    assert_eq!(s.ticker(), None);
    s.step(periodic(1));
    assert_eq!(s.step(control(PublicationCadence::Off)), SensorAction::StopTicker);
    assert_eq!(s.cadence(), PublicationCadence::Off);
    assert_eq!(s.step(control(PublicationCadence::Off)), SensorAction::Idle);
}

#[test]
fn silent_sensor_never_reads() {
    let mut s = Sensor::new();
    for e in 0..10u64 {
        assert_eq!(s.step(Ready::Tick(e)), SensorAction::Idle);
    }
    let get = Ready::Inbound(SensorEvent::Message(SensorMessage::Get));
    assert_eq!(s.step(get), SensorAction::Idle);
    s.step(control(PublicationCadence::OnChange));
    assert_eq!(s.step(Ready::Tick(0)), SensorAction::Idle);
}

#[test]
fn every_tick_reads_once() {
    let mut s = Sensor::new();
    s.step(periodic(3));
    let before = s;
    let mut reads = 0;
    for _ in 0..6 {
        if s.step(Ready::Tick(0)) == SensorAction::Read {
            reads += 1;
        }
    }
    assert_eq!(reads, 6);
    assert_eq!(s, before);
}

#[test]
fn read_scales_temperature() {
    assert_eq!(Sensor::read(Ok(21)), Ok(SensorPayload { temperature: 42 }));
    assert_eq!(Sensor::read(Ok(-5)), Ok(SensorPayload { temperature: -10 }));
    assert_eq!(Sensor::read(Ok(63)), Ok(SensorPayload { temperature: 126 }));
    assert_eq!(Sensor::read(Ok(-64)), Ok(SensorPayload { temperature: -128 }));
    assert_eq!(Sensor::read(Ok(64)), Err(ReadError::OutOfRange));
    assert_eq!(Sensor::read(Ok(-65)), Err(ReadError::OutOfRange));
    assert_eq!(Sensor::read(Err(ReadError::Hardware)), Err(ReadError::Hardware));
}

#[test]
fn failed_read_then_success_publishes_once() {
    let mut s = Sensor::new();
    s.step(periodic(1));
    let measured = [Err(ReadError::Hardware), Ok(20)];
    let mut published = Vec::new();
    for m in measured {
        if s.step(Ready::Tick(0)) == SensorAction::Read {
            if let Ok(p) = Sensor::read(m) {
                published.push(SensorStatus::new(p));
            }
        }
    }
    assert_eq!(published, vec![SensorStatus { payload: SensorPayload { temperature: 40 } }]);
}

#[test]
fn race_keeps_the_loser() {
    let mut r = Race::new();
    let ev = SensorEvent::Control(PublicationCadence::Off);
    assert!(r.offer_tick(4));
    assert!(r.offer_inbound(ev));
    assert!(!r.offer_inbound(SensorEvent::Message(SensorMessage::Get)));
    assert!(!r.offer_tick(5));
    assert_eq!(r.take(Side::Tick), Some(Ready::Tick(4)));
    assert_eq!(r.take(Side::Tick), Some(Ready::Inbound(ev)));
    assert_eq!(r.take(Side::Inbound), None);

    let mut r = Race::new();
    r.offer_tick(1);
    r.offer_inbound(ev);
    assert_eq!(r.take(Side::Inbound), Some(Ready::Inbound(ev)));
    assert_eq!(r.tick, Some(1));
    assert_eq!(r.take(Side::Inbound), Some(Ready::Tick(1)));
    assert_eq!(r, Race::new());
}

#[test]
fn display_mapping() {
    let d = DisplayOnOff::new();
    assert_eq!(
        d.on_message(GenericOnOffMessage::SetAcknowledged(set(1))),
        DisplayAction::Scroll(ScrollText::On)
    );
    assert_eq!(d.on_message(GenericOnOffMessage::SetAcknowledged(set(0))), DisplayAction::Idle);
    assert_eq!(d.on_message(GenericOnOffMessage::SetUnacknowledged(set(0))), DisplayAction::Idle);
    assert_eq!(
        d.on_message(GenericOnOffMessage::SetUnacknowledged(set(7))),
        DisplayAction::Scroll(ScrollText::Off)
    );
    assert_eq!(d.on_message(GenericOnOffMessage::Get), DisplayAction::Idle);
    let status = GenericOnOffStatus { present_on_off: 1 };
    assert_eq!(d.on_message(GenericOnOffMessage::Status(status)), DisplayAction::Idle);
    assert_eq!(ScrollText::On.text(), "ON");
    assert_eq!(ScrollText::Off.text(), "OFF");
}

#[test]
fn battery_and_buttons_do_nothing_but_report() {
    let b = Battery::new();
    assert_eq!(b.on_message(GenericBatteryMessage::Get), BatteryAction::Idle);
    let st = GenericBatteryStatus { battery_level: 80, time_to_discharge: 1, time_to_charge: 2, flags: 0 };
    assert_eq!(b.on_message(GenericBatteryMessage::Status(st)), BatteryAction::Idle);
    assert_eq!(ButtonOnOff::new().on_falling_edge(), ButtonAction::ReportPress);
}

#[test]
fn device_routes_events() {
    let mut d = Device::new(Sensor::new());
    let a = d.handle(DeviceEvent::Display(GenericOnOffMessage::SetAcknowledged(set(1))));
    assert_eq!(a, DeviceAction::Display(DisplayAction::Scroll(ScrollText::On)));
    assert_eq!(d.handle(DeviceEvent::Battery(GenericBatteryMessage::Get)), DeviceAction::Battery(BatteryAction::Idle));
    assert_eq!(d.handle(DeviceEvent::ButtonA), DeviceAction::Button(Location::Left, ButtonAction::ReportPress));
    assert_eq!(d.handle(DeviceEvent::ButtonB), DeviceAction::Button(Location::Right, ButtonAction::ReportPress));
    let a = d.handle(DeviceEvent::Sensor(periodic(5)));
    assert_eq!(a, DeviceAction::Sensor(SensorAction::StartTicker(Ticker { period: Duration::from_secs(5), epoch: 0 })));
    assert_eq!(d.front.sensor.cadence(), PublicationCadence::Periodic(Duration::from_secs(5)));
    assert_eq!(d.handle(DeviceEvent::Sensor(Ready::Tick(0))), DeviceAction::Sensor(SensorAction::Read));
}

#[test]
fn restart_resets_cadence() {
    let mut d = Device::new(Sensor::new());
    d.handle(DeviceEvent::Sensor(periodic(5)));
    d.handle(DeviceEvent::Sensor(periodic(9)));
    d.restart(FatalDispatchError {});
    assert_eq!(d, Device::new(Sensor::new()));
    assert_eq!(d.front.sensor.cadence(), PublicationCadence::Off);
    assert_eq!(d.front.sensor.ticker(), None);
    assert_eq!(d.front.sensor.next_epoch, 0);
}

#[test]
fn composition_table() {
    let c = Device::composition();
    assert_eq!((c.cid, c.pid, c.vid), (COMPANY_ID, PRODUCT_ID, VERSION_ID));
    assert_eq!((c.cid, c.pid, c.vid), (3, 1, 1));
    assert_eq!(c.elements.len(), 3);
    assert_eq!(c.elements[0].location, Location::Front);
    assert_eq!(c.elements[0].endpoints, vec![Endpoint::Display, Endpoint::Battery, Endpoint::Sensor]);
    assert_eq!(c.elements[1].location, Location::Left);
    assert_eq!(c.elements[1].endpoints, vec![Endpoint::ButtonA]);
    assert_eq!(c.elements[2].location, Location::Right);
    assert_eq!(c.elements[2].endpoints, vec![Endpoint::ButtonB]);
    assert_eq!(Location::Front.tag(), "front");
    assert_eq!(Location::Left.tag(), "left");
    assert_eq!(Location::Right.tag(), "right");
}
