use proxy_core::config::store::EndpointRow;
use proxy_core::endpoints::switch_active_endpoint;
use proxy_core::tray::TrayState;
use proxy_core::tray_manager::{SwitchAction, SwitchEvent, SwitchPhase, SystemTrayManager};

fn run(manager: &mut SystemTrayManager, events: &[SwitchEvent]) -> Vec<SwitchAction> {
    events.iter().map(|e| manager.switch_endpoint(*e)).collect()
}

#[test]
fn a_new_manager_shows_the_engine_paused() {
    let mut manager = SystemTrayManager::new();
    assert_eq!(manager.tray_state(), TrayState::Paused);
    assert_eq!(manager.switch_phase(), SwitchPhase::Idle);
    manager.tray_update(1);
    assert_eq!(manager.tray_state(), TrayState::Running);
    manager.tray_update(0);
    assert_eq!(manager.tray_state(), TrayState::Paused);
    manager.tray_update(5);
    assert_eq!(manager.tray_state(), TrayState::Paused);
}

#[test]
fn switch_while_the_engine_runs() {
    let mut manager = SystemTrayManager::new();
    let mut endpoints = vec![
        EndpointRow {
            endpoint_id: "A".to_string(),
            group_id: "g".to_string(),
            remark: "vmess".to_string(),
            active: true,
        },
        EndpointRow {
            endpoint_id: "B".to_string(),
            group_id: "g".to_string(),
            remark: "shadowsocks".to_string(),
            active: false,
        },
    ];
    let mut actions = vec![];
    let mut event = SwitchEvent::Requested(true);
    loop {
        let action = manager.switch_endpoint(event);
        actions.push(action);
        event = match action {
            SwitchAction::CheckEndpoint => SwitchEvent::Checked(true),
            SwitchAction::StopEngine => SwitchEvent::EngineSettled(false),
            SwitchAction::InjectConfig => SwitchEvent::ConfigWritten(true),
            SwitchAction::ActivateEndpoint => {
                switch_active_endpoint(&mut endpoints, "B");
                SwitchEvent::StepDone
            }
            SwitchAction::StartEngine => SwitchEvent::EngineSettled(true),
            SwitchAction::Persist(_) => SwitchEvent::StepDone,
            _ => break,
        };
    }
    assert_eq!(
        actions,
        vec![
            SwitchAction::CheckEndpoint,
            SwitchAction::StopEngine,
            SwitchAction::InjectConfig,
            SwitchAction::ActivateEndpoint,
            SwitchAction::StartEngine,
            SwitchAction::Persist(true),
            SwitchAction::Finish,
        ]
    );
    assert_eq!(manager.tray_state(), TrayState::Running);
    assert_eq!(manager.switch_phase(), SwitchPhase::Idle);
    assert!(!endpoints[0].active);
    assert!(endpoints[1].active);
    assert_eq!(endpoints[0].remark, "vmess");
    assert_eq!(endpoints.iter().filter(|e| e.active).count(), 1);
}

#[test]
fn a_foreign_endpoint_is_rejected_before_anything_is_touched() {
    let mut manager = SystemTrayManager::new();
    manager.tray_update(1);
    let actions = run(&mut manager, &[SwitchEvent::Requested(true), SwitchEvent::Checked(false)]);
    assert_eq!(actions, vec![SwitchAction::CheckEndpoint, SwitchAction::Reject]);
    assert_eq!(manager.switch_phase(), SwitchPhase::Idle);
    assert_eq!(manager.tray_state(), TrayState::Running);
}

#[test]
fn switch_while_the_engine_rests_does_not_start_it() {
    let mut manager = SystemTrayManager::new();
    let actions = run(
        &mut manager,
        &[
            SwitchEvent::Requested(false),
            SwitchEvent::Checked(true),
            SwitchEvent::ConfigWritten(true),
            SwitchEvent::StepDone,
            SwitchEvent::StepDone,
        ],
    );
    assert_eq!(
        actions,
        vec![
            SwitchAction::CheckEndpoint,
            SwitchAction::InjectConfig,
            SwitchAction::ActivateEndpoint,
            SwitchAction::Persist(false),
            SwitchAction::Finish,
        ]
    );
    assert_eq!(manager.tray_state(), TrayState::Paused);
}

#[test]
fn failures_on_the_way_are_stored_as_they_are() {
    // The configuration cannot be written: the engine stays stopped, the
    // endpoints stay as they were.
    let mut manager = SystemTrayManager::new();
    manager.tray_update(1);
    let actions = run(
        &mut manager,
        &[
            SwitchEvent::Requested(true),
            SwitchEvent::Checked(true),
            SwitchEvent::EngineSettled(false),
            SwitchEvent::ConfigWritten(false),
            SwitchEvent::StepDone,
        ],
    );
    assert_eq!(
        actions,
        vec![
            SwitchAction::CheckEndpoint,
            SwitchAction::StopEngine,
            SwitchAction::InjectConfig,
            SwitchAction::Persist(false),
            SwitchAction::Finish,
        ]
    );
    assert_eq!(manager.tray_state(), TrayState::Paused);

    // The engine cannot be stopped: nothing else is done.
    let mut manager = SystemTrayManager::new();
    let actions = run(
        &mut manager,
        &[SwitchEvent::Requested(true), SwitchEvent::Checked(true), SwitchEvent::EngineSettled(true)],
    );
    assert_eq!(actions[2], SwitchAction::Persist(true));
    assert_eq!(manager.tray_state(), TrayState::Running);

    // The engine does not come up again.
    let mut manager = SystemTrayManager::new();
    let actions = run(
        &mut manager,
        &[
            SwitchEvent::Requested(true),
            SwitchEvent::Checked(true),
            SwitchEvent::EngineSettled(false),
            SwitchEvent::ConfigWritten(true),
            SwitchEvent::StepDone,
            SwitchEvent::EngineSettled(false),
        ],
    );
    assert_eq!(actions[5], SwitchAction::Persist(false));

    // Events out of turn change nothing.
    let mut manager = SystemTrayManager::new();
    assert_eq!(manager.switch_endpoint(SwitchEvent::StepDone), SwitchAction::Nothing);
    assert_eq!(manager.switch_endpoint(SwitchEvent::Checked(true)), SwitchAction::Nothing);
    assert_eq!(manager.switch_phase(), SwitchPhase::Idle);
}
