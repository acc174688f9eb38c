use proxy_core::config::store::{
    DnsRow, EndpointRow, LogRow, OutboundRow, SettingsStore, ShadowsocksRow, StreamRow,
    UserGroupRow, VnextRow,
};
use proxy_core::config::synth::inject_config;
use proxy_core::daemon::{
    start_daemon, stop_daemon, DaemonAction, DaemonEvent, DaemonPhase, DaemonState, Reply,
};
use proxy_core::endpoints::switch_active_endpoint;
use proxy_core::reconcile::service_running_state;

fn s(text: &str) -> String {
    text.to_string()
}

fn store() -> SettingsStore {
    SettingsStore {
        user_groups: vec![UserGroupRow { user_id: s("u"), group_id: s("g") }],
        endpoints: vec![
            EndpointRow { endpoint_id: s("A"), group_id: s("g"), remark: s("vmess"), active: true },
            EndpointRow { endpoint_id: s("B"), group_id: s("g"), remark: s("ss"), active: false },
        ],
        logs: vec![LogRow {
            user_id: s("u"),
            error_path: s("e"),
            log_level: s("warning"),
            access_path: s("a"),
        }],
        inbounds: vec![],
        outbounds: vec![
            OutboundRow {
                endpoint_id: s("A"),
                mux_enabled: 0,
                mux_concurrency: 8,
                protocol: s("vmess"),
                tag: s("proxy"),
            },
            OutboundRow {
                endpoint_id: s("B"),
                mux_enabled: 0,
                mux_concurrency: 8,
                protocol: s("shadowsocks"),
                tag: s("proxy"),
            },
        ],
        streams: vec![
            StreamRow { endpoint_id: s("A"), security: s("none"), network: s("raw") },
            StreamRow { endpoint_id: s("B"), security: s("none"), network: s("raw") },
        ],
        tcp: vec![],
        kcp: vec![],
        http2: vec![],
        quic: vec![],
        grpc: vec![],
        ws: vec![],
        tls: vec![],
        vnext: vec![VnextRow { vnext_id: s("v"), endpoint_id: s("A"), address: s("a.example"), port: 443 }],
        vmess_users: vec![],
        shadowsocks: vec![ShadowsocksRow {
            endpoint_id: s("B"),
            method: s("aes-128-gcm"),
            password: s("pw"),
            level: 0,
            email: Some(s("me@example.com")),
            address: s("b.example"),
            port: 8388,
        }],
        trojan: vec![],
        hysteria2: vec![],
        dns: vec![DnsRow { user_id: s("u"), value: s("{\"hosts\":{}}") }],
    }
}

/// The user switches the active endpoint from A (vmess) to B (shadowsocks)
/// while the engine runs.
#[test]
fn switching_endpoints_while_running() {
    let mut settings = store();
    let mut daemon = DaemonState::new();
    let mut alive: Vec<u32> = vec![];

    // The engine runs with endpoint A.
    assert_eq!(start_daemon(&mut daemon), Reply::Do(DaemonAction::Spawn));
    alive.push(1);
    assert_eq!(daemon.handle(DaemonEvent::Spawned(1)), Reply::Done);

    // stop() succeeds.
    assert_eq!(stop_daemon(&mut daemon), Reply::Do(DaemonAction::Kill(1)));
    alive.retain(|p| *p != 1);
    assert_eq!(daemon.handle(DaemonEvent::Killed), Reply::Done);
    assert_eq!(daemon.phase(), DaemonPhase::Stopped);

    // The configuration is synthesized anew, for B.
    let content = inject_config(&settings, "B", "u").unwrap();
    let doc: serde_json::Value = serde_json::from_str(&content).unwrap();
    assert_eq!(doc["outbounds"][0]["protocol"], "shadowsocks");
    assert_eq!(doc["outbounds"][0]["settings"]["servers"][0]["address"], "b.example");
    assert_eq!(doc["outbounds"][0]["settings"]["servers"][0]["email"], "me@example.com");
    assert!(doc["outbounds"][0]["settings"]["vnext"].is_null());

    // start() succeeds.
    assert_eq!(start_daemon(&mut daemon), Reply::Do(DaemonAction::Spawn));
    alive.push(2);
    assert_eq!(daemon.handle(DaemonEvent::Spawned(2)), Reply::Done);

    switch_active_endpoint(&mut settings.endpoints, "B");

    assert_eq!(service_running_state(&daemon), 1);
    assert_eq!(alive, vec![2]);
    assert_eq!(daemon.child(), Some(2));
    assert!(!settings.endpoints[0].active);
    assert!(settings.endpoints[1].active);
}

#[test]
fn nothing_is_injected_for_faulty_settings() {
    let mut settings = store();
    settings.dns.clear();
    assert_eq!(inject_config(&settings, "B", "u"), None);
    assert_eq!(inject_config(&store(), "B", "nobody"), None);
    assert!(inject_config(&store(), "A", "u").unwrap().contains("\"a.example\""));
}
