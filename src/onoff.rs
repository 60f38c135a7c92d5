use vstd::prelude::*;

verus! {

/// The payload of a SetAcknowledged or SetUnacknowledged on/off message.
#[derive(Clone, Copy, Debug, PartialEq, Eq, Structural)]
pub struct GenericOnOffSet {
    pub on_off: u8,
    pub tid: u8,
}

/// The payload of an on/off Status message.
#[derive(Clone, Copy, Debug, PartialEq, Eq, Structural)]
pub struct GenericOnOffStatus {
    pub present_on_off: u8,
}

/// Application messages of the generic on/off model.
#[derive(Clone, Copy, Debug, PartialEq, Eq, Structural)]
pub enum GenericOnOffMessage {
    Get,
    SetAcknowledged(GenericOnOffSet),
    SetUnacknowledged(GenericOnOffSet),
    Status(GenericOnOffStatus),
}

/// The texts that the display scrolls.
#[derive(Clone, Copy, Debug, PartialEq, Eq, Structural)]
pub enum ScrollText {
    On,
    Off,
}

impl ScrollText {
    /// The characters shown for this text.
    pub fn text(&self) -> (r: &'static str)
        ensures
            *self == ScrollText::On ==> r@ == "ON"@,
            *self == ScrollText::Off ==> r@ == "OFF"@,
    {
        match self {
            ScrollText::On => "ON",
            ScrollText::Off => "OFF",
        }
    }
}

/// What the display endpoint asks of the display after one message.
#[derive(Clone, Copy, Debug, PartialEq, Eq, Structural)]
pub enum DisplayAction {
    Idle,
    Scroll(ScrollText),
}

/// What the display endpoint does with an on/off message: a SetAcknowledged with a
/// nonzero value scrolls "ON", a SetUnacknowledged with a nonzero value
/// scrolls "OFF", and everything else does nothing.
pub open spec fn display_spec(m: GenericOnOffMessage) -> DisplayAction {
    match m {
        GenericOnOffMessage::SetAcknowledged(v) => if v.on_off != 0 {
            DisplayAction::Scroll(ScrollText::On)
        } else {
            DisplayAction::Idle
        },
        GenericOnOffMessage::SetUnacknowledged(v) => if v.on_off != 0 {
            DisplayAction::Scroll(ScrollText::Off)
        } else {
            DisplayAction::Idle
        },
        _ => DisplayAction::Idle,
    }
}

/// The on/off server endpoint that drives the LED display. The display itself
/// is held by the runtime.
#[derive(Clone, Copy, Debug, PartialEq, Eq, Structural)]
pub struct DisplayOnOff {}

impl DisplayOnOff {
    pub fn new() -> (r: DisplayOnOff)
        ensures
            r == (DisplayOnOff {}),
    {
        DisplayOnOff {}
    }

    /// Handles one inbound on/off message.
    pub fn on_message(&self, m: GenericOnOffMessage) -> (r: DisplayAction)
        ensures
            r == display_spec(m),
    {
        match m {
            GenericOnOffMessage::Get => DisplayAction::Idle,
            GenericOnOffMessage::SetAcknowledged(v) => {
                if v.on_off != 0 {
                    DisplayAction::Scroll(ScrollText::On)
                } else {
                    DisplayAction::Idle
                }
            },
            GenericOnOffMessage::SetUnacknowledged(v) => {
                if v.on_off != 0 {
                    DisplayAction::Scroll(ScrollText::Off)
                } else {
                    DisplayAction::Idle
                }
            },
            GenericOnOffMessage::Status(_) => DisplayAction::Idle,
        }
    }
}

/// What a button endpoint does after an edge.
#[derive(Clone, Copy, Debug, PartialEq, Eq, Structural)]
pub enum ButtonAction {
    /// Report the press; no message is sent.
    ReportPress,
}

/// The on/off client endpoint of one button. The button itself is held by the
/// runtime.
#[derive(Clone, Copy, Debug, PartialEq, Eq, Structural)]
pub struct ButtonOnOff {}

impl ButtonOnOff {
    pub fn new() -> (r: ButtonOnOff)
        ensures
            r == (ButtonOnOff {}),
    {
        ButtonOnOff {}
    }

    /// Handles one falling edge of the button.
    pub fn on_falling_edge(&self) -> (r: ButtonAction)
        ensures
            r == ButtonAction::ReportPress,
    {
        ButtonAction::ReportPress
    }
}

} // verus!
