use st_sim::client::{calc_blocks, Client, ScreenCommand, SpanStatus, TimeSpan};
use st_sim::messages::{Action, Directive, Event, Interface, Value};
use st_sim::time::{Duration, Instant};

#[test]
fn blocks_formula() {
    let t = Duration::from_millis(7000);
    assert_eq!(calc_blocks(Duration::from_millis(7000), t), 20);
    assert_eq!(calc_blocks(Duration::from_millis(3500), t), 10);
    assert_eq!(calc_blocks(Duration::from_millis(349), t), 0);
    assert_eq!(calc_blocks(Duration::from_millis(350), t), 1);
    assert_eq!(calc_blocks(Duration::from_millis(0), t), 0);
}

#[test]
fn span_status() {
    let s = TimeSpan { start: Instant::from_millis(100), total: Duration::from_millis(1000) };
    assert_eq!(
        s.status(Instant::from_millis(400)),
        SpanStatus::Ongoing { remaining: Duration::from_millis(700), total: Duration::from_millis(1000) }
    );
    assert_eq!(s.status(Instant::from_millis(1100)), SpanStatus::Completed);
}

#[test]
fn client_countdown() {
    let mut c = Client::new();
    assert!(c.update(Instant::from_millis(0)).is_empty());
    let a = Action { interface: Interface::VentControl, value: Value::Enable };
    let d = Directive { action: a, time_limit: Duration::from_millis(1000) };
    assert_eq!(
        c.handle(Instant::from_millis(0), Event::NewDirective(d)),
        vec![ScreenCommand::CommandText(Some(a)), ScreenCommand::Timer(20)]
    );
    assert_eq!(c.update(Instant::from_millis(500)), vec![ScreenCommand::Timer(10)]);
    assert_eq!(
        c.update(Instant::from_millis(1000)),
        vec![ScreenCommand::CommandText(None), ScreenCommand::Timer(0)]
    );
    assert!(c.update(Instant::from_millis(1100)).is_empty());
    assert_eq!(
        c.handle(Instant::from_millis(0), Event::ShipDistanceUpdated { distance: 297 }),
        vec![ScreenCommand::Distance(297)]
    );
    assert_eq!(
        c.handle(Instant::from_millis(0), Event::UpdateHullHealth { delta: -4 }),
        vec![ScreenCommand::HullHealth(-4)]
    );
    c.handle(Instant::from_millis(0), Event::NewDirective(d));
    assert_eq!(
        c.handle(Instant::from_millis(10), Event::DirectiveCompleted),
        vec![ScreenCommand::CommandText(None), ScreenCommand::Timer(0)]
    );
    assert!(c.update(Instant::from_millis(20)).is_empty());
}
