use proxy_core::config::bypass::parse_bypass_domains;
use proxy_core::config::error::{ConfigError, Section};
use proxy_core::config::store::EndpointRow;
use proxy_core::daemon::{start_daemon, DaemonAction, DaemonEvent, DaemonPhase, DaemonState, Reply};
use proxy_core::endpoints::{has_active_endpoint, switch_active_endpoint};
use proxy_core::os_proxy::windows::registry_write;
use proxy_core::pac_server::{PacServerShutdownHandle, StopOutcome};
use proxy_core::platform::Platform;
use proxy_core::reconcile::{
    auto_start_wish, clear_system_proxy, graceful_restart, reset_proxy_v2ray_status,
    service_running_state, ReconcileAction, ReconcileEvent, ReconcilePhase, Reconciler,
};
use proxy_core::stray::{
    clear_v2ray_core_service, process_pattern, stray_kill, stray_probe, ProbeResult,
};

#[test]
fn reconciliation_without_user_only_cleans_up() {
    let mut reconciler = Reconciler::new();
    let daemon = DaemonState::new();
    let mut actions = vec![];
    for event in [
        ReconcileEvent::Begin,
        ReconcileEvent::StepDone,
        ReconcileEvent::StepDone,
        ReconcileEvent::StepDone,
        ReconcileEvent::UserLookedUp(false),
    ] {
        actions.push(reset_proxy_v2ray_status(&mut reconciler, event));
    }
    assert_eq!(
        actions,
        vec![
            ReconcileAction::ClearStrayEngines,
            ReconcileAction::ClearPacProxy,
            ReconcileAction::ClearGlobalProxy,
            ReconcileAction::LookUpUser,
            ReconcileAction::Finish,
        ]
    );
    assert!(reconciler.is_finished());
    assert_eq!(daemon.phase(), DaemonPhase::Stopped);
    assert_eq!(service_running_state(&daemon), 0);
    assert_eq!(reset_proxy_v2ray_status(&mut reconciler, ReconcileEvent::Begin), ReconcileAction::Nothing);
    assert_eq!(reconciler.phase(), ReconcilePhase::Finished);
}

fn run_to_preference(reconciler: &mut Reconciler) {
    reset_proxy_v2ray_status(reconciler, ReconcileEvent::Begin);
    reset_proxy_v2ray_status(reconciler, ReconcileEvent::StepDone);
    reset_proxy_v2ray_status(reconciler, ReconcileEvent::StepDone);
    reset_proxy_v2ray_status(reconciler, ReconcileEvent::StepDone);
    assert_eq!(
        reset_proxy_v2ray_status(reconciler, ReconcileEvent::UserLookedUp(true)),
        ReconcileAction::ReadAutoStart
    );
}

#[test]
fn reconciliation_starts_the_engine_on_wish_and_stores_what_became_of_it() {
    let mut reconciler = Reconciler::new();
    run_to_preference(&mut reconciler);
    assert_eq!(
        reset_proxy_v2ray_status(&mut reconciler, ReconcileEvent::AutoStartRead(auto_start_wish(Some(1)))),
        ReconcileAction::StartEngine
    );
    // The start failed: what is stored tells so.
    assert_eq!(
        reset_proxy_v2ray_status(&mut reconciler, ReconcileEvent::EngineSettled(false)),
        ReconcileAction::Persist(false)
    );
    assert_eq!(
        reset_proxy_v2ray_status(&mut reconciler, ReconcileEvent::StepDone),
        ReconcileAction::Finish
    );

    let mut reconciler = Reconciler::new();
    run_to_preference(&mut reconciler);
    reset_proxy_v2ray_status(&mut reconciler, ReconcileEvent::AutoStartRead(Some(true)));
    assert_eq!(
        reset_proxy_v2ray_status(&mut reconciler, ReconcileEvent::EngineSettled(true)),
        ReconcileAction::Persist(true)
    );
}

#[test]
fn reconciliation_stops_the_engine_without_wish() {
    for wish in [auto_start_wish(Some(0)), auto_start_wish(Some(2)), auto_start_wish(None)] {
        let mut reconciler = Reconciler::new();
        run_to_preference(&mut reconciler);
        assert_eq!(
            reset_proxy_v2ray_status(&mut reconciler, ReconcileEvent::AutoStartRead(wish)),
            ReconcileAction::StopEngine
        );
        assert_eq!(
            reset_proxy_v2ray_status(&mut reconciler, ReconcileEvent::EngineSettled(false)),
            ReconcileAction::Persist(false)
        );
    }
    assert_eq!(auto_start_wish(Some(1)), Some(true));
    assert_eq!(auto_start_wish(Some(0)), Some(false));
    assert_eq!(auto_start_wish(None), None);
}

#[test]
fn events_out_of_turn_change_nothing() {
    let mut reconciler = Reconciler::new();
    assert_eq!(reset_proxy_v2ray_status(&mut reconciler, ReconcileEvent::StepDone), ReconcileAction::Nothing);
    assert_eq!(
        reset_proxy_v2ray_status(&mut reconciler, ReconcileEvent::UserLookedUp(true)),
        ReconcileAction::Nothing
    );
    assert_eq!(reconciler.phase(), ReconcilePhase::Idle);
}

#[test]
fn clearing_the_system_proxy() {
    let mut server = PacServerShutdownHandle::new();
    let (tx, mut rx) = tokio::sync::oneshot::channel::<()>();
    server.begin_start();
    server.finish_start(tx);
    let (outcome, commands) = clear_system_proxy(&mut server, Platform::Windows, &vec![]);
    assert_eq!(outcome, StopOutcome::Signalled);
    assert_eq!(rx.try_recv(), Ok(()));
    let names: Vec<String> = commands.iter().map(|c| registry_write(c).unwrap().name).collect();
    assert_eq!(names, vec!["AutoConfigURL", "ProxyEnable", "ProxyServer", "ProxyOverride"]);
}

#[test]
fn the_way_down_clears_the_proxy_and_stops_the_engine() {
    let mut server = PacServerShutdownHandle::new();
    let mut daemon = DaemonState::new();
    start_daemon(&mut daemon);
    daemon.handle(DaemonEvent::Spawned(42));
    assert_eq!(service_running_state(&daemon), 1);
    let shutdown = graceful_restart(&mut server, &mut daemon, Platform::Linux, &vec![]);
    assert_eq!(shutdown.server, StopOutcome::NotRunning);
    assert_eq!(shutdown.commands.len(), 10);
    assert_eq!(shutdown.daemon, Reply::Do(DaemonAction::Kill(42)));
    assert_eq!(daemon.handle(DaemonEvent::Killed), Reply::Done);
    assert_eq!(service_running_state(&daemon), 0);
}

#[test]
fn stray_engines() {
    assert_eq!(process_pattern(Platform::Windows), "v2ray.exe run -c");
    assert_eq!(process_pattern(Platform::Linux), "v2ray run -c");
    assert_eq!(stray_probe(Platform::Linux), vec!["pgrep", "-f", "v2ray run -c"]);
    assert_eq!(stray_kill(Platform::MacOs), vec!["pkill", "-f", "v2ray run -c"]);
    assert_eq!(
        stray_probe(Platform::Windows),
        vec![
            "powershell",
            "-NoProfile",
            "-Command",
            "Get-CimInstance Win32_Process | Where-Object { $_.Name -eq 'v2ray.exe' -and $_.CommandLine -like '* run -c *' } | ForEach-Object { $_.ProcessId }",
        ]
    );
    assert_eq!(
        stray_kill(Platform::Windows),
        vec![
            "powershell",
            "-NoProfile",
            "-Command",
            "Get-CimInstance Win32_Process | Where-Object { $_.Name -eq 'v2ray.exe' -and $_.CommandLine -like '* run -c *' } | ForEach-Object { Stop-Process -Id $_.ProcessId -Force }",
        ]
    );

    let found = Some(ProbeResult { success: true, stdout: "1234\n".to_string() });
    assert_eq!(
        clear_v2ray_core_service(Platform::Linux, &found, &DaemonState::new()),
        Some(vec!["pkill".to_string(), "-f".to_string(), "v2ray run -c".to_string()])
    );
    let none = Some(ProbeResult { success: false, stdout: String::new() });
    assert_eq!(clear_v2ray_core_service(Platform::Linux, &none, &DaemonState::new()), None);
    assert_eq!(clear_v2ray_core_service(Platform::Linux, &None, &DaemonState::new()), None);

    let listed = Some(ProbeResult { success: true, stdout: "4242\r\n".to_string() });
    assert_eq!(
        clear_v2ray_core_service(Platform::Windows, &listed, &DaemonState::new()),
        Some(stray_kill(Platform::Windows))
    );
    let empty = Some(ProbeResult { success: true, stdout: "\r\n".to_string() });
    assert_eq!(clear_v2ray_core_service(Platform::Windows, &empty, &DaemonState::new()), None);
    let failed = Some(ProbeResult { success: false, stdout: "4242".to_string() });
    assert_eq!(clear_v2ray_core_service(Platform::Windows, &failed, &DaemonState::new()), None);
    assert_eq!(clear_v2ray_core_service(Platform::Windows, &None, &DaemonState::new()), None);

    // While the supervisor holds an engine of its own, nothing is ended.
    let mut daemon = DaemonState::new();
    start_daemon(&mut daemon);
    daemon.handle(DaemonEvent::Spawned(7));
    assert_eq!(clear_v2ray_core_service(Platform::Linux, &found, &daemon), None);
    assert_eq!(clear_v2ray_core_service(Platform::Windows, &listed, &daemon), None);
}

fn endpoint(id: &str, active: bool) -> EndpointRow {
    EndpointRow {
        endpoint_id: id.to_string(),
        group_id: "g".to_string(),
        remark: id.to_uppercase(),
        active,
    }
}

#[test]
fn switching_the_active_endpoint() {
    let mut endpoints = vec![endpoint("a", true), endpoint("b", false), endpoint("c", true)];
    switch_active_endpoint(&mut endpoints, "b");
    let flags: Vec<bool> = endpoints.iter().map(|e| e.active).collect();
    assert_eq!(flags, vec![false, true, false]);
    assert_eq!(endpoints[0].remark, "A");
    assert!(has_active_endpoint(&endpoints));
    switch_active_endpoint(&mut endpoints, "missing");
    assert!(!has_active_endpoint(&endpoints));
    let mut none: Vec<EndpointRow> = vec![];
    switch_active_endpoint(&mut none, "a");
    assert!(none.is_empty());
}

#[test]
fn bypass_domain_list() {
    assert_eq!(
        parse_bypass_domains("{\"bypass\": [\"localhost\", \"127.0.0.1\", \"<local>\"]}"),
        Ok(vec!["localhost".to_string(), "127.0.0.1".to_string(), "<local>".to_string()])
    );
    assert_eq!(parse_bypass_domains("{\"bypass\": [], \"other\": 1}"), Ok(vec![]));
    for bad in ["", "[]", "{}", "{\"bypass\": {}}", "{\"bypass\": [1]}", "{\"bypass\": [\"a\", null]}", "{\"bypass\": \"a\"}"] {
        assert_eq!(
            parse_bypass_domains(bad),
            Err(ConfigError::MalformedDocument(Section::BypassDomains)),
            "stored list {:?}",
            bad
        );
    }
}
