//! A two-position toggle switch read from one digital pin.

use vstd::prelude::*;
use crate::controls::{Control, ControlValue};

verus! {

/// The level of a digital pin.
#[derive(Clone, Copy, Debug, PartialEq, Eq, Structural)]
pub enum PinValue {
    Low,
    High,
}

/// A digital input pin.
pub trait Pin {
    fn read(&self) -> PinValue;
}

/// The position of a toggle switch.
#[derive(Clone, Copy, Debug, PartialEq, Eq, Structural)]
pub enum ToggleSwitchValue {
    Disabled,
    Enabled,
}

impl ControlValue for ToggleSwitchValue {
    open spec fn spec_initial() -> ToggleSwitchValue {
        ToggleSwitchValue::Disabled
    }

    fn initial() -> (r: ToggleSwitchValue) {
        ToggleSwitchValue::Disabled
    }

    fn same_as(&self, other: &ToggleSwitchValue) -> (r: bool) {
        *self == *other
    }
}

/// The position that a pin level stands for: a high pin is an enabled switch.
pub open spec fn toggle_of(p: PinValue) -> ToggleSwitchValue {
    match p {
        PinValue::Low => ToggleSwitchValue::Disabled,
        PinValue::High => ToggleSwitchValue::Enabled,
    }
}

pub fn toggle_from_pin(p: PinValue) -> (r: ToggleSwitchValue)
    ensures
        r == toggle_of(p),
{
    match p {
        PinValue::Low => ToggleSwitchValue::Disabled,
        PinValue::High => ToggleSwitchValue::Enabled,
    }
}

pub struct ToggleSwitch<P: Pin> {
    pin: P,
}

impl<P: Pin> ToggleSwitch<P> {
    pub closed spec fn pin(&self) -> P {
        self.pin
    }

    pub fn new(pin: P) -> (r: ToggleSwitch<P>)
        ensures
            r.pin() == pin,
    {
        ToggleSwitch { pin }
    }
}

impl<P: Pin> Control for ToggleSwitch<P> {
    type Value = ToggleSwitchValue;

    fn read(&self) -> ToggleSwitchValue {
        toggle_from_pin(self.pin.read())
    }
}

} // verus!
