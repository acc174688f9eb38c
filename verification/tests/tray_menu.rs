use proxy_core::config::store::EndpointRow;
use proxy_core::mode_switch::ProxyMode;
use proxy_core::tray::{
    endpoint_item, endpoint_items, mode_label, on_close_requested, parse_menu_event,
    proxy_shell_command, close_splashscreen, status_label, toggle_label, tray_visible, CloseDecision,
    MenuEvent,
};

fn endpoint(id: &str, remark: &str, active: bool) -> EndpointRow {
    EndpointRow {
        endpoint_id: id.to_string(),
        group_id: "g".to_string(),
        remark: remark.to_string(),
        active,
    }
}

#[test]
fn labels() {
    assert_eq!(status_label(true, "5.16.1"), "v2ray-core: On (v5.16.1)");
    assert_eq!(status_label(false, ""), "v2ray-core: Off (v)");
    assert_eq!(toggle_label(true), "Turn v2ray-core Off");
    assert_eq!(toggle_label(false), "Turn v2ray-core On");
    assert_eq!(mode_label(ProxyMode::Pac, "pac"), "\u{2713} PAC Mode");
    assert_eq!(mode_label(ProxyMode::Pac, "global"), "PAC Mode");
    assert_eq!(mode_label(ProxyMode::Global, "global"), "\u{2713} Global Mode");
    assert_eq!(mode_label(ProxyMode::Manual, "manual"), "\u{2713} Manual Mode");
    assert_eq!(mode_label(ProxyMode::Manual, ""), "Manual Mode");
}

#[test]
fn endpoint_entries() {
    let active = endpoint_item(&endpoint("e1", "Tokyo", true));
    assert_eq!(active.id, "endpoint:e1");
    assert_eq!(active.label, "\u{2713} Tokyo");
    assert!(!active.enabled);
    let idle = endpoint_item(&endpoint("e2", "Oslo", false));
    assert_eq!(idle.label, "Oslo");
    assert!(idle.enabled);
    let items = endpoint_items(&vec![endpoint("e1", "Tokyo", true), endpoint("e2", "Oslo", false)]);
    assert_eq!(items.len(), 2);
    assert_eq!(items[1].id, "endpoint:e2");
    let none = endpoint_items(&vec![]);
    assert_eq!(none.len(), 1);
    assert_eq!(none[0].id, "no_endpoints");
    assert_eq!(none[0].label, "No Endpoints Available");
    assert!(!none[0].enabled);
}

fn endpoint_of(id: &str) -> Option<String> {
    match parse_menu_event(id) {
        MenuEvent::Endpoint(e) => Some(e),
        _ => None,
    }
}

#[test]
fn menu_events() {
    assert_eq!(endpoint_of("endpoint:e1"), Some("e1".to_string()));
    assert_eq!(endpoint_of("endpoint:"), Some(String::new()));
    assert_eq!(endpoint_of("endpoint:endpoint:x"), Some("x".to_string()));
    assert_eq!(endpoint_of("endpoint:a:endpoint:"), Some("a:endpoint:".to_string()));
    assert_eq!(endpoint_of("endpoint"), None);
    assert!(matches!(parse_menu_event("show"), MenuEvent::Show));
    assert!(matches!(parse_menu_event("check-website"), MenuEvent::CheckWebsite));
    assert!(matches!(parse_menu_event("help"), MenuEvent::Help));
    assert!(matches!(parse_menu_event("quit"), MenuEvent::Quit));
    assert!(matches!(parse_menu_event("hide"), MenuEvent::Hide));
    assert!(matches!(parse_menu_event("toggle-service"), MenuEvent::ToggleService));
    assert!(matches!(parse_menu_event("view-config"), MenuEvent::ViewConfig));
    assert!(matches!(parse_menu_event("view-pac"), MenuEvent::ViewPac));
    assert!(matches!(parse_menu_event("view-log"), MenuEvent::ViewLog));
    assert!(matches!(parse_menu_event("switch-pac"), MenuEvent::SwitchPac));
    assert!(matches!(parse_menu_event("switch-global"), MenuEvent::SwitchGlobal));
    assert!(matches!(parse_menu_event("switch-manual"), MenuEvent::SwitchManual));
    assert!(matches!(parse_menu_event("configure-endpoints"), MenuEvent::ConfigureEndpoints));
    assert!(matches!(parse_menu_event("copy-proxy-cmd"), MenuEvent::CopyProxyCmd));
    assert!(matches!(parse_menu_event("preferences"), MenuEvent::Preferences));
    assert!(matches!(parse_menu_event("configure-pac-settings"), MenuEvent::Other));
    assert!(matches!(parse_menu_event(""), MenuEvent::Other));
}

#[test]
fn shell_commands() {
    let bypass = vec!["localhost".to_string(), "127.0.0.1".to_string()];
    assert_eq!(
        proxy_shell_command(false, "127.0.0.1", 10871, "127.0.0.1", 10872, &bypass),
        "export http_proxy=http://127.0.0.1:10871; export https_proxy=http://127.0.0.1:10871; export all_proxy=socks5://127.0.0.1:10872; export no_proxy='localhost,127.0.0.1';"
    );
    assert_eq!(
        proxy_shell_command(true, "h", 1, "s", 2, &vec![]),
        "set HTTP_PROXY=http://h:1 \nset HTTPS_PROXY=http://h:1 \nset ALL_PROXY=socks5://s:2 \nset NO_PROXY=''"
    );
}

#[test]
fn window_decisions() {
    assert_eq!(on_close_requested(1), CloseDecision::ShutDown);
    assert_eq!(on_close_requested(0), CloseDecision::HideWindow);
    assert_eq!(on_close_requested(2), CloseDecision::HideWindow);
    assert!(tray_visible(0));
    assert!(!tray_visible(1));
    assert!(close_splashscreen(Some(1)));
    assert!(!close_splashscreen(Some(0)));
    assert!(close_splashscreen(None));
}
