use gym_harness::reset::{EntityScope, ResetEvent, ResetState, ResetStateMachine};

fn cart_pole() -> ResetStateMachine {
    // camera, ground, cart, pole
    ResetStateMachine::new(&vec![
        EntityScope::Persistent,
        EntityScope::Episode,
        EntityScope::Episode,
        EntityScope::Episode,
    ])
}

fn present(machine: &ResetStateMachine) -> Vec<bool> {
    (0..machine.slot_count()).map(|i| machine.is_present(i)).collect()
}

#[test]
fn machine_starts_loading_with_nothing_created() {
    let machine = cart_pole();
    assert_eq!(machine.state(), ResetState::Loading);
    assert_eq!(machine.slot_count(), 4);
    assert_eq!(present(&machine), vec![false, false, false, false]);
    assert!(!machine.is_present(4));
}

#[test]
fn reset_cycle_goes_round() {
    let mut machine = cart_pole();
    assert_eq!(machine.load(), vec![0, 1, 2, 3]);
    assert!(machine.report(ResetEvent::SetupComplete));
    assert_eq!(machine.state(), ResetState::Playing);
    assert!(machine.request_reset());
    assert_eq!(machine.state(), ResetState::Resetting);
    assert_eq!(machine.destroy(), vec![1, 2, 3]);
    assert_eq!(present(&machine), vec![true, false, false, false]);
    assert!(machine.report(ResetEvent::EntitiesDestroyed));
    assert_eq!(machine.state(), ResetState::Loading);
    assert_eq!(machine.load(), vec![1, 2, 3]);
    assert_eq!(present(&machine), vec![true, true, true, true]);
    assert!(machine.report(ResetEvent::SetupComplete));
    assert_eq!(machine.state(), ResetState::Playing);
}

#[test]
fn loading_twice_leaves_the_same_entities() {
    let mut once = cart_pole();
    once.load();
    let mut twice = cart_pole();
    twice.load();
    assert_eq!(twice.load(), Vec::<usize>::new());
    assert_eq!(present(&once), present(&twice));
    assert_eq!(twice.state(), ResetState::Loading);
}

#[test]
fn second_reset_request_changes_nothing() {
    let mut machine = cart_pole();
    machine.load();
    machine.report(ResetEvent::SetupComplete);
    assert!(machine.request_reset());
    assert!(!machine.request_reset());
    assert_eq!(machine.state(), ResetState::Resetting);
    assert_eq!(machine.destroy(), vec![1, 2, 3]);
    assert_eq!(machine.destroy(), Vec::<usize>::new());
}

#[test]
fn events_out_of_place_are_ignored() {
    let mut machine = cart_pole();
    assert!(!machine.request_reset());
    assert!(!machine.report(ResetEvent::EntitiesDestroyed));
    assert_eq!(machine.state(), ResetState::Loading);
    assert_eq!(machine.destroy(), Vec::<usize>::new());
    machine.load();
    machine.report(ResetEvent::SetupComplete);
    assert!(!machine.report(ResetEvent::SetupComplete));
    assert_eq!(machine.load(), Vec::<usize>::new());
    assert_eq!(machine.state(), ResetState::Playing);
    assert_eq!(present(&machine), vec![true, true, true, true]);
}

#[test]
fn machine_without_entities_still_cycles() {
    let mut machine = ResetStateMachine::new(&Vec::new());
    assert_eq!(machine.load(), Vec::<usize>::new());
    assert!(machine.report(ResetEvent::SetupComplete));
    assert!(machine.request_reset());
    assert_eq!(machine.destroy(), Vec::<usize>::new());
    assert!(machine.report(ResetEvent::EntitiesDestroyed));
    assert_eq!(machine.state(), ResetState::Loading);
}
