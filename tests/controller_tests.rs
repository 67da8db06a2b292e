use procedural_terrain::controller::{
    ControllerEvent, Directive, PassOrder, Phase, RegenerationController,
};

fn start(generation: u64, place: bool) -> Directive {
    Directive { install: None, start: Some(PassOrder { generation, place }) }
}

fn nothing() -> Directive {
    Directive { install: None, start: None }
}

fn install(generation: u64) -> Directive {
    Directive { install: Some(generation), start: None }
}

#[test]
fn first_config_starts_a_pass_without_placement() {
    let mut c = RegenerationController::new();
    assert_eq!(c.phase(), Phase::Idle);
    assert_eq!(c.step(ControllerEvent::ConfigChanged), start(1, false));
    assert_eq!(c.phase(), Phase::Generating);
    assert_eq!(c.step(ControllerEvent::PassFinished { generation: 1 }), install(1));
    assert_eq!(c.phase(), Phase::AwaitingAssets);
}

#[test]
fn assets_arriving_force_a_pass_with_placement() {
    let mut c = RegenerationController::new();
    c.step(ControllerEvent::ConfigChanged);
    c.step(ControllerEvent::PassFinished { generation: 1 });
    assert_eq!(c.step(ControllerEvent::AssetsReady), start(2, true));
    assert_eq!(c.step(ControllerEvent::PassFinished { generation: 2 }), install(2));
    assert_eq!(c.phase(), Phase::Installed);
    // a second readiness signal changes nothing
    assert_eq!(c.step(ControllerEvent::AssetsReady), nothing());
}

#[test]
fn assets_before_config_wait_for_it() {
    let mut c = RegenerationController::new();
    assert_eq!(c.step(ControllerEvent::AssetsReady), nothing());
    assert_eq!(c.step(ControllerEvent::ConfigChanged), start(1, true));
}

#[test]
fn superseded_pass_is_discarded_and_latest_installed() {
    let mut c = RegenerationController::new();
    c.step(ControllerEvent::AssetsReady);
    c.step(ControllerEvent::ConfigChanged);
    c.step(ControllerEvent::PassFinished { generation: 1 });
    assert_eq!(c.step(ControllerEvent::ConfigChanged), start(2, true));
    // two more changes while pass 2 runs: coalesced
    assert_eq!(c.step(ControllerEvent::ConfigChanged), nothing());
    assert_eq!(c.step(ControllerEvent::ConfigChanged), nothing());
    // pass 2 ends: its output is stale, the latest request starts
    assert_eq!(c.step(ControllerEvent::PassFinished { generation: 2 }), start(4, true));
    assert_eq!(c.installed, Some(PassOrder { generation: 1, place: true }));
    assert_eq!(c.step(ControllerEvent::PassFinished { generation: 4 }), install(4));
    assert_eq!(c.installed, Some(PassOrder { generation: 4, place: true }));
    assert_eq!(c.running, None);
}

#[test]
fn failed_pass_keeps_the_previous_generation() {
    let mut c = RegenerationController::new();
    c.step(ControllerEvent::ConfigChanged);
    c.step(ControllerEvent::PassFinished { generation: 1 });
    c.step(ControllerEvent::ConfigChanged);
    assert_eq!(c.step(ControllerEvent::PassFailed { generation: 2 }), nothing());
    assert_eq!(c.installed, Some(PassOrder { generation: 1, place: false }));
    assert_eq!(c.phase(), Phase::AwaitingAssets);
}

#[test]
fn unknown_pass_events_are_ignored() {
    let mut c = RegenerationController::new();
    c.step(ControllerEvent::ConfigChanged);
    assert_eq!(c.step(ControllerEvent::PassFinished { generation: 9 }), nothing());
    assert_eq!(c.step(ControllerEvent::PassFailed { generation: 9 }), nothing());
    assert_eq!(c.running, Some(PassOrder { generation: 1, place: false }));
}
