use mpris_idle_inhibit::{CompositorRequest, InhibitionState, InhibitorController};

use CompositorRequest::{CreateInhibitor, DestroyInhibitor, Roundtrip};

#[test]
fn inhibiting_twice_creates_once() {
    let mut c = InhibitorController::new();
    assert_eq!(c.state(), InhibitionState::Idle);
    assert_eq!(c.ensure_inhibiting(), vec![CreateInhibitor, Roundtrip]);
    assert_eq!(c.state(), InhibitionState::Inhibiting);
    assert_eq!(c.ensure_inhibiting(), vec![]);
    assert_eq!(c.state(), InhibitionState::Inhibiting);
}

#[test]
fn releasing_without_inhibitor_sends_nothing() {
    let mut c = InhibitorController::new();
    assert_eq!(c.ensure_idle(), vec![]);
    assert_eq!(c.state(), InhibitionState::Idle);
}

#[test]
fn releasing_destroys_once() {
    let mut c = InhibitorController::new();
    c.ensure_inhibiting();
    assert_eq!(c.ensure_idle(), vec![DestroyInhibitor, Roundtrip]);
    assert_eq!(c.state(), InhibitionState::Idle);
    assert_eq!(c.ensure_idle(), vec![]);
    assert_eq!(c.ensure_inhibiting(), vec![CreateInhibitor, Roundtrip]);
}
