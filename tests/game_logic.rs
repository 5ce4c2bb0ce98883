use st_sim::game_logic::{
    CurrentDirective, GameLogicActor, DIRECTIVE_TIME_LIMIT_MS, TIMEOUT_PENALTY,
    WRONG_ACTION_PENALTY,
};
use st_sim::game_state::{GameStateActor, GamePhase};
use st_sim::messages::{Action, Directive, Event, Interface, Value};
use st_sim::ship_distance::{ShipDistance, ShipDistanceResult};
use st_sim::ship_state::{GenerateFailReason, ShipState};
use st_sim::time::{Duration, Instant};
use rand::rngs::SmallRng;
use rand::SeedableRng;

fn at(ms: u64) -> Instant {
    Instant::from_millis(ms)
}

fn issue_directive(g: &mut GameLogicActor, now: u64) -> Directive {
    let events = g.tick(at(now));
    match events[0] {
        Event::NewDirective(d) => d,
        other => panic!("expected a new directive, got {:?}", other),
    }
}

fn other_action(a: Action) -> Action {
    let interface = match a.interface {
        Interface::Eigenthrottle => Interface::VentControl,
        _ => Interface::Eigenthrottle,
    };
    Action { interface, value: a.value }
}

#[test]
fn scenario_directive_completed() {
    let mut g = GameLogicActor::default();
    assert_eq!(g.current_directive(), CurrentDirective::WaitingForDirective { wait_until: at(500) });
    let events = g.tick(at(0));
    assert!(events.is_empty());
    let events = g.tick(at(600));
    let d = match events[0] {
        Event::NewDirective(d) => d,
        other => panic!("expected a new directive, got {:?}", other),
    };
    assert_eq!(d.time_limit, Duration::from_millis(7000));
    assert_eq!(
        g.current_directive(),
        CurrentDirective::OutstandingDirective { expires_at: at(7600), action: d.action }
    );
    let events = g.action_performed(at(1000), d.action);
    assert_eq!(events, vec![Event::DirectiveCompleted]);
    assert_eq!(g.current_directive(), CurrentDirective::WaitingForDirective { wait_until: at(1500) });
}

#[test]
fn scenario_directive_times_out() {
    let mut g = GameLogicActor::new(7);
    let d = issue_directive(&mut g, 600);
    let events = g.tick(at(7599));
    assert!(!events.iter().any(|e| matches!(e, Event::UpdateHullHealth { .. })));
    let events = g.tick(at(7700));
    assert_eq!(events[0], Event::UpdateHullHealth { delta: -4 });
    assert_eq!(TIMEOUT_PENALTY, -4);
    assert_eq!(g.current_directive(), CurrentDirective::WaitingForDirective { wait_until: at(8200) });
    assert!(d.action.value == Value::Enable);
}

#[test]
fn scenario_wrong_action_keeps_directive() {
    let mut g = GameLogicActor::new(1);
    let d = issue_directive(&mut g, 600);
    assert_eq!(d.action.value, Value::Enable);
    let before = g.current_directive();
    let events = g.action_performed(at(900), other_action(d.action));
    assert_eq!(events, vec![Event::UpdateHullHealth { delta: -2 }]);
    assert_eq!(WRONG_ACTION_PENALTY, -2);
    assert_eq!(g.current_directive(), before);
    let events = g.action_performed(at(1000), d.action);
    assert_eq!(events, vec![Event::DirectiveCompleted]);
}

#[test]
fn action_without_directive_is_penalised() {
    let mut g = GameLogicActor::default();
    let a = Action { interface: Interface::VentControl, value: Value::Enable };
    assert_eq!(g.action_performed(at(10), a), vec![Event::UpdateHullHealth { delta: -2 }]);
    assert_eq!(g.current_directive(), CurrentDirective::WaitingForDirective { wait_until: at(500) });
}

#[test]
fn expiry_on_first_tick_at_limit() {
    let mut g = GameLogicActor::new(3);
    issue_directive(&mut g, 1000);
    let limit = DIRECTIVE_TIME_LIMIT_MS;
    let events = g.tick(at(1000 + limit - 1));
    assert!(!events.iter().any(|e| matches!(e, Event::UpdateHullHealth { .. })));
    let events = g.tick(at(1000 + limit));
    assert_eq!(events[0], Event::UpdateHullHealth { delta: -4 });
}

#[test]
fn start_reports_zero_distance() {
    let g = GameLogicActor::default();
    assert_eq!(g.start(), vec![Event::ShipDistanceUpdated { distance: 0 }]);
}

#[test]
fn distance_steps_on_boundaries_only() {
    let mut g = GameLogicActor::default();
    assert!(g.tick(at(0)).is_empty());
    assert_eq!(g.ship_distance(), 0);
    let events = g.tick(at(1));
    assert_eq!(events, vec![Event::ShipDistanceUpdated { distance: 297 }]);
    let events = g.tick(at(400));
    assert!(events.is_empty());
    let events = g.tick(at(2000));
    assert!(!events.iter().any(|e| matches!(e, Event::ShipDistanceUpdated { .. })));
    let events = g.tick(at(2001));
    assert!(events.contains(&Event::ShipDistanceUpdated { distance: 594 }));
    assert_eq!(g.ship_distance(), 594);
}

#[test]
fn ship_distance_update() {
    let mut d = ShipDistance::new();
    assert_eq!(d.update(at(0)), ShipDistanceResult::Unchanged);
    assert_eq!(d.update(at(5)), ShipDistanceResult::DistanceUpdated(297));
    assert_eq!(d.update(at(2000)), ShipDistanceResult::Unchanged);
    assert_eq!(d.update(at(9000)), ShipDistanceResult::DistanceUpdated(594));
    assert_eq!(d.update(at(9000)), ShipDistanceResult::DistanceUpdated(891));
    assert_eq!(d.get_distance(), 891);
}

#[test]
fn generation_runs_out_of_subsystems() {
    let mut ship = ShipState::new();
    let mut rng = SmallRng::seed_from_u64(42);
    let mut seen: Vec<Interface> = Vec::new();
    for _ in 0..3 {
        let a = ship.generate_action(&mut rng).expect("a free subsystem is left");
        assert_eq!(a.value, Value::Enable);
        assert_eq!(ship.required(a.interface), Some(Value::Enable));
        assert!(!seen.contains(&a.interface));
        seen.push(a.interface);
    }
    assert_eq!(ship.generate_action(&mut rng), Err(GenerateFailReason::NoActionsAvailable));
    let freed = Action { interface: Interface::GelatinousDarkbucket, value: Value::Enable };
    ship.clear(freed);
    assert_eq!(ship.current(Interface::GelatinousDarkbucket), Value::Disable);
    assert_eq!(ship.generate_action(&mut rng), Ok(freed));
}

#[test]
fn perform_meets_requirement() {
    let mut ship = ShipState::new();
    let mut rng = SmallRng::seed_from_u64(3);
    let a = ship.generate_action(&mut rng).unwrap();
    ship.perform(Action { interface: a.interface, value: Value::Disable });
    assert_eq!(ship.required(a.interface), Some(Value::Enable));
    ship.perform(a);
    assert_eq!(ship.current(a.interface), Value::Enable);
    assert_eq!(ship.required(a.interface), None);
    let b = ship.generate_action(&mut rng).unwrap();
    if b.interface == a.interface {
        assert_eq!(b.value, Value::Disable);
    }
}

#[test]
fn phase_progression() {
    let mut s = GameStateActor::default();
    assert_eq!(s.current_phase(), GamePhase::AwaitingInput);
    assert!(s.control_init_finished().is_empty());
    assert_eq!(s.action_performed(), vec![Event::InitializeGame]);
    assert_eq!(s.current_phase(), GamePhase::Initializing);
    assert!(s.action_performed().is_empty());
    assert_eq!(s.control_init_finished(), vec![Event::GameStarted]);
    assert_eq!(s.current_phase(), GamePhase::Playing);
    assert!(s.action_performed().is_empty());
    assert!(s.control_init_finished().is_empty());
    assert_eq!(s.current_phase(), GamePhase::Playing);
}
