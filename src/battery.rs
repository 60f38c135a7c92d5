use vstd::prelude::*;

verus! {

/// The payload of a battery Status message.
#[derive(Clone, Copy, Debug, PartialEq, Eq, Structural)]
pub struct GenericBatteryStatus {
    pub battery_level: u8,
    pub time_to_discharge: u32,
    pub time_to_charge: u32,
    pub flags: u8,
}

/// Application messages of the generic battery model.
#[derive(Clone, Copy, Debug, PartialEq, Eq, Structural)]
pub enum GenericBatteryMessage {
    Get,
    Status(GenericBatteryStatus),
}

/// What the battery endpoint does after one message.
#[derive(Clone, Copy, Debug, PartialEq, Eq, Structural)]
pub enum BatteryAction {
    Idle,
}

/// The battery server endpoint. It holds its address and capability; Get and
/// Status are accepted and answered by nothing.
#[derive(Clone, Copy, Debug, PartialEq, Eq, Structural)]
pub struct Battery {}

impl Battery {
    pub fn new() -> (r: Battery)
        ensures
            r == (Battery {}),
    {
        Battery {}
    }

    /// Handles one inbound battery message.
    pub fn on_message(&self, m: GenericBatteryMessage) -> (r: BatteryAction)
        ensures
            r == BatteryAction::Idle,
    {
        match m {
            GenericBatteryMessage::Get => BatteryAction::Idle,
            GenericBatteryMessage::Status(_) => BatteryAction::Idle,
        }
    }
}

} // verus!
