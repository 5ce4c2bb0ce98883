use st_sim::dispatch::{inbound, Dispatcher};
use st_sim::game_logic::CurrentDirective;
use st_sim::game_state::GamePhase;
use st_sim::messages::{Action, Event, Interface, Value};
use st_sim::time::Instant;

fn at(ms: u64) -> Instant {
    Instant::from_millis(ms)
}

#[test]
fn dispatch_full_game_start() {
    let mut d = Dispatcher::new(9);
    assert_eq!(d.dispatch(at(0), Event::StartGame), vec![Event::ShipDistanceUpdated { distance: 0 }]);
    let press = Action { interface: Interface::VentControl, value: Value::Enable };
    assert_eq!(
        d.dispatch(at(0), Event::ActionPerformed(press)),
        vec![Event::InitializeGame, Event::UpdateHullHealth { delta: -2 }]
    );
    assert_eq!(d.phase_now(), GamePhase::Initializing);
    assert_eq!(d.dispatch(at(0), Event::ControlInitFinished), vec![Event::GameStarted]);
    assert_eq!(d.phase_now(), GamePhase::Playing);
    assert!(d.dispatch(at(0), Event::Tick).is_empty());
    let events = d.dispatch(at(600), Event::Tick);
    assert_eq!(events.len(), 2);
    let action = match events[0] {
        Event::NewDirective(dir) => dir.action,
        other => panic!("expected a new directive, got {:?}", other),
    };
    assert_eq!(events[1], Event::ShipDistanceUpdated { distance: 297 });
    assert_eq!(
        d.directive_now(),
        CurrentDirective::OutstandingDirective { expires_at: at(7600), action }
    );
    assert_eq!(d.dispatch(at(1000), Event::ActionPerformed(action)), vec![Event::DirectiveCompleted]);
}

#[test]
fn dispatch_passes_outbound_through() {
    let mut d = Dispatcher::new(1);
    assert_eq!(d.dispatch(at(5), Event::GameStarted), vec![Event::GameStarted]);
    assert_eq!(d.phase_now(), GamePhase::AwaitingInput);
    assert!(inbound(Event::Tick));
    assert!(!inbound(Event::DirectiveCompleted));
    assert!(d.can_handle(at(5)));
    assert!(!d.can_handle(at(u64::MAX)));
}
