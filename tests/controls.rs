use std::cell::Cell;
use std::rc::Rc;
use st_sim::controls::{DebounceControl, DebounceStatus, StatefulControl, UpdateResult};
use st_sim::toggle_switch::{Pin, PinValue, ToggleSwitch, ToggleSwitchValue};

#[derive(Clone)]
struct FakePin(Rc<Cell<PinValue>>);

impl Pin for FakePin {
    fn read(&self) -> PinValue {
        self.0.get()
    }
}

fn debounced(window: u32) -> (Rc<Cell<PinValue>>, DebounceControl<ToggleSwitch<FakePin>>) {
    let level = Rc::new(Cell::new(PinValue::Low));
    let control = DebounceControl::new(ToggleSwitch::new(FakePin(level.clone())), window);
    (level, control)
}

#[test]
fn scenario_glitch_absorbed() {
    let (level, mut c) = debounced(50);
    level.set(PinValue::High);
    assert_eq!(c.update(0), UpdateResult::NoChange);
    assert_eq!(c.update(51), UpdateResult::Change(ToggleSwitchValue::Enabled));
    assert_eq!(c.debounce_status(), DebounceStatus::Neutral);
    level.set(PinValue::Low);
    assert_eq!(c.update(100), UpdateResult::NoChange);
    assert_eq!(
        c.debounce_status(),
        DebounceStatus::Debouncing { ends_at: 150, de_value: ToggleSwitchValue::Disabled }
    );
    level.set(PinValue::High);
    assert_eq!(c.update(120), UpdateResult::NoChange);
    assert_eq!(c.debounce_status(), DebounceStatus::Neutral);
    assert_eq!(c.update(200), UpdateResult::NoChange);
    assert_eq!(c.stable_value(), ToggleSwitchValue::Enabled);
}

#[test]
fn held_value_reported_once() {
    let (level, mut c) = debounced(50);
    level.set(PinValue::High);
    assert_eq!(c.update(10), UpdateResult::NoChange);
    assert_eq!(c.update(40), UpdateResult::NoChange);
    assert_eq!(c.update(60), UpdateResult::NoChange);
    assert_eq!(c.update(61), UpdateResult::Change(ToggleSwitchValue::Enabled));
    assert_eq!(c.debounce_status(), DebounceStatus::Neutral);
    assert_eq!(c.update(62), UpdateResult::NoChange);
    assert_eq!(c.update(500), UpdateResult::NoChange);
}

#[test]
fn window_is_strict() {
    let (level, mut c) = debounced(50);
    level.set(PinValue::High);
    assert_eq!(c.update(100), UpdateResult::NoChange);
    assert_eq!(c.update(150), UpdateResult::NoChange);
    assert_eq!(c.update(151), UpdateResult::Change(ToggleSwitchValue::Enabled));
}

#[test]
fn zero_window_needs_a_later_reading() {
    let (level, mut c) = debounced(0);
    level.set(PinValue::High);
    assert_eq!(c.update(7), UpdateResult::NoChange);
    assert_eq!(c.update(7), UpdateResult::NoChange);
    assert_eq!(c.update(8), UpdateResult::Change(ToggleSwitchValue::Enabled));
}

#[test]
fn stateful_reports_edges() {
    let level = Rc::new(Cell::new(PinValue::Low));
    let mut c = StatefulControl::new(ToggleSwitch::new(FakePin(level.clone())));
    assert_eq!(c.update(0), UpdateResult::NoChange);
    level.set(PinValue::High);
    assert_eq!(c.update(1), UpdateResult::Change(ToggleSwitchValue::Enabled));
    assert_eq!(c.update(2), UpdateResult::NoChange);
    assert_eq!(c.current_value(), ToggleSwitchValue::Enabled);
    level.set(PinValue::Low);
    assert_eq!(c.update(3), UpdateResult::Change(ToggleSwitchValue::Disabled));
}

#[test]
fn debounce_with_direct_readings() {
    let (_level, mut c) = debounced(50);
    assert_eq!(c.update_with(0, ToggleSwitchValue::Enabled), UpdateResult::NoChange);
    assert_eq!(c.update_with(30, ToggleSwitchValue::Enabled), UpdateResult::NoChange);
    assert_eq!(c.update_with(51, ToggleSwitchValue::Enabled), UpdateResult::Change(ToggleSwitchValue::Enabled));
    assert_eq!(c.update_with(60, ToggleSwitchValue::Disabled), UpdateResult::NoChange);
    assert_eq!(c.update_with(200, ToggleSwitchValue::Disabled), UpdateResult::Change(ToggleSwitchValue::Disabled));
}
