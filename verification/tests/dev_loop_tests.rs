use mu_cli::dev::{DevAction, DevOrchestrator, DevPhase};
use mu_cli::project::config::MuFunctionType;
use mu_cli::project::MuProject;

#[test]
fn the_loop_initializes_units_in_order_then_saves_starts_and_arms() {
    let mut m = DevOrchestrator::new(2);
    assert_eq!(m.phase, DevPhase::Initializing { next: 0 });
    assert_eq!(m.step(), DevAction::BuildAndDeploy { idx: 0 });
    assert_eq!(m.step(), DevAction::BuildAndDeploy { idx: 1 });
    assert_eq!(m.step(), DevAction::Save);
    assert_eq!(m.step(), DevAction::StartFrontends);
    assert_eq!(m.step(), DevAction::Wait);
    assert_eq!(m.phase, DevPhase::Watching);
}

#[test]
fn nothing_is_observed_before_a_notification_arrives() {
    let mut m = DevOrchestrator::new(1);
    while m.step() != DevAction::Wait {}
    assert_eq!(m.step(), DevAction::Wait);
    assert_eq!(m.step(), DevAction::Wait);
}

#[test]
fn a_change_triggers_rebuild_save_and_rearm_of_that_unit_only() {
    let mut m = DevOrchestrator::new(3);
    while m.step() != DevAction::Wait {}
    m.on_notify(1);
    assert_eq!(m.step(), DevAction::BuildAndDeploy { idx: 1 });
    assert_eq!(m.phase, DevPhase::Rebuilding { idx: 1 });
    assert_eq!(m.step(), DevAction::Save);
    assert_eq!(m.step(), DevAction::Wait);
    assert_eq!(m.phase, DevPhase::Watching);
    // The unit's latch was re-armed: a fresh change fires again.
    m.on_notify(1);
    assert_eq!(m.step(), DevAction::BuildAndDeploy { idx: 1 });
}

#[test]
fn a_change_during_anothers_rebuild_is_served_only_after_it_completes() {
    // Scenario: in dev mode, a change under unit 0's root arrives while
    // unit 1 is mid-rebuild. It is observed only after unit 1's rebuild
    // completes, the project is persisted and control returns to the
    // watch state.
    let mut m = DevOrchestrator::new(2);
    while m.step() != DevAction::Wait {}
    m.on_notify(1);
    assert_eq!(m.step(), DevAction::BuildAndDeploy { idx: 1 });
    // Unit 1 is mid-rebuild; unit 0 changes now.
    m.on_notify(0);
    assert_eq!(m.phase, DevPhase::Rebuilding { idx: 1 });
    // Finishing the rebuild persists first ...
    assert_eq!(m.step(), DevAction::Save);
    // ... and only then is unit 0's queued change observed.
    assert_eq!(m.step(), DevAction::BuildAndDeploy { idx: 0 });
    assert_eq!(m.phase, DevPhase::Rebuilding { idx: 0 });
}

#[test]
fn a_units_own_mid_rebuild_changes_are_forgotten_at_rearm() {
    let mut m = DevOrchestrator::new(1);
    while m.step() != DevAction::Wait {}
    m.on_notify(0);
    assert_eq!(m.step(), DevAction::BuildAndDeploy { idx: 0 });
    // The rebuild itself touches files under the unit's root.
    m.on_notify(0);
    m.on_notify(0);
    assert_eq!(m.step(), DevAction::Save);
    // Re-arming unit 0 drains those echoes: the loop waits.
    assert_eq!(m.step(), DevAction::Wait);
}

#[test]
fn lower_indexed_ready_latches_win() {
    let mut m = DevOrchestrator::new(3);
    while m.step() != DevAction::Wait {}
    m.on_notify(2);
    m.on_notify(0);
    assert_eq!(m.step(), DevAction::BuildAndDeploy { idx: 0 });
    assert_eq!(m.step(), DevAction::Save);
    assert_eq!(m.step(), DevAction::BuildAndDeploy { idx: 2 });
}

#[test]
fn a_project_enters_dev_mode_with_one_latch_per_function() {
    let mut p = MuProject::init("demo".to_string());
    p.add_function("alpha", MuFunctionType::ICP);
    p.add_function("beta", MuFunctionType::ICP);
    let m = p.dev();
    assert_eq!(m.phase, DevPhase::Initializing { next: 0 });
    assert_eq!(m.watchers.len(), 2);
    assert!(m.watchers.iter().all(|w| !w.enabled && w.queued == 0));
}
