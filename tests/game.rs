use st_sim::game::{DirectiveStatus, Game, Messages};
use st_sim::messages::{Action, Directive, Interface, Value};
use st_sim::time::Duration;

fn fixed() -> Directive {
    Directive {
        action: Action { interface: Interface::Eigenthrottle, value: Value::Enable },
        time_limit: Duration::from_millis(10_000),
    }
}

#[test]
fn legacy_loop_issues_and_expires() {
    let mut g = Game::new();
    assert_eq!(g.hull_health(), 100);
    assert_eq!(g.update(0), vec![]);
    assert_eq!(g.update(2000), vec![Messages::UpdateDistance(297)]);
    assert_eq!(
        g.update(2001),
        vec![Messages::NewDirective(fixed()), Messages::UpdateDistance(594)]
    );
    assert_eq!(
        g.directive_status(),
        DirectiveStatus::HasDirective { expiration: 12_001, directive: fixed() }
    );
    assert_eq!(g.update(4000), vec![]);
    assert_eq!(g.update(4001), vec![Messages::UpdateDistance(891)]);
    assert_eq!(g.update(12_001), vec![Messages::UpdateDistance(1188)]);
    assert_eq!(
        g.update(12_002),
        vec![Messages::UpdateHullHealth(96), Messages::UpdateDistance(1485)]
    );
    assert_eq!(g.directive_status(), DirectiveStatus::AwaitingDirective { wait_until: 14_002 });
    assert_eq!(g.hull_health(), 96);
    assert_eq!(g.ship_distance(), 1485);
}

#[test]
fn legacy_loop_range_check() {
    let g = Game::new();
    assert!(g.can_update(5000));
    assert!(!g.can_update(u32::MAX));
}
