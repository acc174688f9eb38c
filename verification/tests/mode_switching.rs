use proxy_core::mode_switch::{
    apply_global, apply_manual, apply_pac, clear_pac_proxy, set_global_proxy, set_pac_proxy,
    setup_global_proxy, setup_manual_proxy, setup_pac_proxy, unset_global_proxy, unset_pac_proxy,
    ProxyMode,
};
use proxy_core::os_proxy::gnome::{
    gnome_arguments, ignore_hosts, set_global_proxy_linux, unset_global_proxy_linux,
};
use proxy_core::os_proxy::macos::{list_services_arguments, mac_arguments, network_services};
use proxy_core::os_proxy::windows::{
    internet_settings_key, proxy_server, registry_write, RegistryValue,
};
use proxy_core::os_proxy::{check_outcomes, OsProxyError, ProxyCommand};
use proxy_core::pac_server::{pac_url, PacServerShutdownHandle, StopOutcome, Takeover};
use proxy_core::platform::Platform;

fn lines(platform: Platform, commands: &[ProxyCommand<String>]) -> Vec<String> {
    commands
        .iter()
        .map(|c| match platform {
            Platform::Linux => gnome_arguments(c).unwrap().join(" "),
            Platform::MacOs => mac_arguments(c).unwrap().join(" "),
            _ => {
                let w = registry_write(c).unwrap();
                match w.value {
                    RegistryValue::Number(n) => format!("{} = dword:{}", w.name, n),
                    RegistryValue::Text(t) => format!("{} = {}", w.name, t),
                    RegistryValue::Absent => format!("delete {}", w.name),
                }
            }
        })
        .collect()
}

fn s(text: &str) -> String {
    text.to_string()
}

#[test]
fn gnome_global_proxy_commands() {
    let commands =
        set_global_proxy(Platform::Linux, &vec![], "127.0.0.1", 10871, 10872, &vec![]);
    assert_eq!(
        lines(Platform::Linux, &commands),
        vec![
            "gsettings set org.gnome.system.proxy mode manual",
            "gsettings set org.gnome.system.proxy.http host 127.0.0.1",
            "gsettings set org.gnome.system.proxy.http port 10871",
            "gsettings set org.gnome.system.proxy.https host 127.0.0.1",
            "gsettings set org.gnome.system.proxy.https port 10871",
            "gsettings set org.gnome.system.proxy.socks host 127.0.0.1",
            "gsettings set org.gnome.system.proxy.socks port 10872",
        ]
    );
    let with_bypass = set_global_proxy_linux("h", 1, 2, &vec![s("localhost"), s("10.0.0.0/8")]);
    assert_eq!(with_bypass.len(), 8);
    assert_eq!(
        gnome_arguments(&with_bypass[7]).unwrap(),
        vec!["gsettings", "set", "org.gnome.system.proxy", "ignore-hosts", "['localhost', '10.0.0.0/8']"]
    );
    assert_eq!(ignore_hosts(&vec![s("a")]), "['a']");
    assert_eq!(
        ignore_hosts(&vec![s("localhost"), s("example.org")]),
        "['localhost', 'example.org']"
    );
    assert_eq!(ignore_hosts(&vec![]), "[]");
}

#[test]
fn gnome_unset_commands() {
    assert_eq!(
        lines(Platform::Linux, &unset_global_proxy_linux()),
        vec![
            "gsettings set org.gnome.system.proxy mode none",
            "gsettings reset org.gnome.system.proxy.http host",
            "gsettings reset org.gnome.system.proxy.http port",
            "gsettings reset org.gnome.system.proxy.https host",
            "gsettings reset org.gnome.system.proxy.https port",
            "gsettings reset org.gnome.system.proxy.socks host",
            "gsettings reset org.gnome.system.proxy.socks port",
            "gsettings reset org.gnome.system.proxy ignore-hosts",
        ]
    );
    assert_eq!(
        lines(Platform::Linux, &clear_pac_proxy(Platform::Linux, &vec![])),
        vec![
            "gsettings set org.gnome.system.proxy mode none",
            "gsettings reset org.gnome.system.proxy autoconfig-url",
        ]
    );
    assert_eq!(
        lines(Platform::Linux, &set_pac_proxy(Platform::Linux, &vec![], "http://127.0.0.1:9/proxy.pac")),
        vec![
            "gsettings set org.gnome.system.proxy mode auto",
            "gsettings set org.gnome.system.proxy autoconfig-url http://127.0.0.1:9/proxy.pac",
        ]
    );
}

#[test]
fn macos_commands_fan_out_over_services() {
    let services = vec![s("Wi-Fi"), s("Ethernet")];
    let commands =
        set_global_proxy(Platform::MacOs, &services, "127.0.0.1", 80, 1080, &vec![s("a.com"), s("b.com")]);
    let text = lines(Platform::MacOs, &commands);
    assert_eq!(text.len(), 14);
    assert_eq!(
        &text[..7],
        &[
            "networksetup -setwebproxy Wi-Fi 127.0.0.1 80",
            "networksetup -setsecurewebproxy Wi-Fi 127.0.0.1 80",
            "networksetup -setsocksfirewallproxy Wi-Fi 127.0.0.1 1080",
            "networksetup -setwebproxystate Wi-Fi on",
            "networksetup -setsecurewebproxystate Wi-Fi on",
            "networksetup -setsocksfirewallproxystate Wi-Fi on",
            "networksetup -setproxybypassdomains Wi-Fi a.com,b.com",
        ]
    );
    assert_eq!(text[7], "networksetup -setwebproxy Ethernet 127.0.0.1 80");
    assert_eq!(
        lines(Platform::MacOs, &unset_global_proxy(Platform::MacOs, &services)),
        vec![
            "networksetup -setwebproxystate Wi-Fi off",
            "networksetup -setsecurewebproxystate Wi-Fi off",
            "networksetup -setsocksfirewallproxystate Wi-Fi off",
            "networksetup -setwebproxystate Ethernet off",
            "networksetup -setsecurewebproxystate Ethernet off",
            "networksetup -setsocksfirewallproxystate Ethernet off",
        ]
    );
    assert_eq!(
        lines(Platform::MacOs, &set_pac_proxy(Platform::MacOs, &services, "http://x/proxy.pac")),
        vec![
            "networksetup -setautoproxyurl Wi-Fi http://x/proxy.pac",
            "networksetup -setautoproxystate Wi-Fi on",
            "networksetup -setautoproxyurl Ethernet http://x/proxy.pac",
            "networksetup -setautoproxystate Ethernet on",
        ]
    );
    assert_eq!(
        lines(Platform::MacOs, &clear_pac_proxy(Platform::MacOs, &services)),
        vec![
            "networksetup -setautoproxystate Wi-Fi off",
            "networksetup -setautoproxystate Ethernet off",
        ]
    );
    assert!(set_global_proxy(Platform::MacOs, &vec![], "h", 1, 2, &vec![]).is_empty());
}

#[test]
fn macos_service_listing() {
    let listing = "An asterisk (*) denotes that a network service is disabled.\nWi-Fi\n*Bluetooth PAN\nThunderbolt Bridge\r\n";
    assert_eq!(
        network_services(listing),
        vec![
            "An asterisk (*) denotes that a network service is disabled.",
            "Wi-Fi",
            "Thunderbolt Bridge"
        ]
    );
    assert!(network_services("").is_empty());
    assert_eq!(list_services_arguments(), vec!["networksetup", "-listallnetworkservices"]);
}

#[test]
fn windows_registry_writes() {
    assert_eq!(
        internet_settings_key(),
        "Software\\Microsoft\\Windows\\CurrentVersion\\Internet Settings"
    );
    assert_eq!(
        proxy_server("127.0.0.1", 10871, 10872),
        "http=127.0.0.1:10871;https=127.0.0.1:10871;socks=127.0.0.1:10872"
    );
    assert_eq!(
        lines(Platform::Windows, &set_global_proxy(Platform::Windows, &vec![], "h", 1, 2, &vec![s("x")])),
        vec!["ProxyEnable = dword:1", "ProxyServer = http=h:1;https=h:1;socks=h:2"]
    );
    assert_eq!(
        lines(Platform::Windows, &unset_global_proxy(Platform::Windows, &vec![])),
        vec!["ProxyEnable = dword:0", "delete ProxyServer", "delete ProxyOverride"]
    );
    assert_eq!(
        lines(Platform::Windows, &set_pac_proxy(Platform::Windows, &vec![], "http://u")),
        vec!["AutoConfigURL = http://u", "ProxyEnable = dword:0"]
    );
    assert_eq!(
        lines(Platform::Windows, &clear_pac_proxy(Platform::Windows, &vec![])),
        vec!["delete AutoConfigURL"]
    );
    let gnome = set_pac_proxy(Platform::Linux, &vec![], "u");
    assert!(registry_write(&gnome[0]).is_none());
    assert!(mac_arguments(&gnome[0]).is_none());
    let windows = set_pac_proxy(Platform::Windows, &vec![], "u");
    assert!(gnome_arguments(&windows[0]).is_none());
}

#[test]
fn switching_clears_the_other_mode_first() {
    let pac = apply_pac(Platform::Windows, &vec![], "http://u");
    assert_eq!(
        lines(Platform::Windows, &pac),
        vec![
            "ProxyEnable = dword:0",
            "delete ProxyServer",
            "delete ProxyOverride",
            "AutoConfigURL = http://u",
            "ProxyEnable = dword:0",
        ]
    );
    let global = apply_global(Platform::Windows, &vec![], "h", 1, 2, &vec![]);
    assert_eq!(
        lines(Platform::Windows, &global),
        vec!["delete AutoConfigURL", "ProxyEnable = dword:1", "ProxyServer = http=h:1;https=h:1;socks=h:2"]
    );
    let manual = apply_manual(Platform::Windows, &vec![]);
    assert_eq!(
        lines(Platform::Windows, &manual),
        vec!["ProxyEnable = dword:0", "delete ProxyServer", "delete ProxyOverride", "delete AutoConfigURL"]
    );
    let linux = apply_global(Platform::Linux, &vec![], "h", 1, 2, &vec![]);
    assert_eq!(lines(Platform::Linux, &linux)[0], "gsettings set org.gnome.system.proxy mode none");
    assert_eq!(lines(Platform::Linux, &linux)[1], "gsettings reset org.gnome.system.proxy autoconfig-url");
    assert_eq!(lines(Platform::Linux, &linux)[2], "gsettings set org.gnome.system.proxy mode manual");
    assert!(apply_manual(Platform::Other, &vec![s("Wi-Fi")]).is_empty());
}

#[test]
fn outcomes_report_failure_if_any_command_failed() {
    let commands = apply_manual(Platform::Windows, &vec![]);
    assert_eq!(check_outcomes(&commands, &vec![true, true, true, true]), Ok(()));
    // Deleting a value that may be absent is allowed to fail.
    assert_eq!(check_outcomes(&commands, &vec![true, false, false, false]), Ok(()));
    assert_eq!(
        check_outcomes(&commands, &vec![false, true, true, true]),
        Err(OsProxyError { failed: 1, first: 0 })
    );
    let services = vec![s("a"), s("b")];
    let mac = clear_pac_proxy(Platform::MacOs, &services);
    assert_eq!(check_outcomes(&mac, &vec![false, false]), Err(OsProxyError { failed: 2, first: 0 }));
    assert_eq!(check_outcomes(&mac, &vec![true, false]), Err(OsProxyError { failed: 1, first: 1 }));
    // A command without a known result counts as failed.
    assert_eq!(check_outcomes(&mac, &vec![true]), Err(OsProxyError { failed: 1, first: 1 }));
    assert_eq!(check_outcomes(&vec![], &vec![]), Ok(()));
}

#[test]
fn pac_server_is_stopped_before_the_next_is_started() {
    let mut handle = PacServerShutdownHandle::new();
    assert!(!handle.is_running());
    assert_eq!(handle.stop(), StopOutcome::NotRunning);

    assert_eq!(handle.begin_start(), StopOutcome::NotRunning);
    assert!(handle.starting);
    let (tx1, mut rx1) = tokio::sync::oneshot::channel::<()>();
    let setup = setup_pac_proxy(&mut handle, tx1, 4321, Platform::Linux, &vec![]).unwrap();
    assert_eq!(setup.url, "http://127.0.0.1:4321/proxy.pac");
    assert_eq!(
        lines(Platform::Linux, &setup.commands),
        vec![
            "gsettings set org.gnome.system.proxy mode none",
            "gsettings reset org.gnome.system.proxy.http host",
            "gsettings reset org.gnome.system.proxy.http port",
            "gsettings reset org.gnome.system.proxy.https host",
            "gsettings reset org.gnome.system.proxy.https port",
            "gsettings reset org.gnome.system.proxy.socks host",
            "gsettings reset org.gnome.system.proxy.socks port",
            "gsettings reset org.gnome.system.proxy ignore-hosts",
            "gsettings set org.gnome.system.proxy mode auto",
            "gsettings set org.gnome.system.proxy autoconfig-url http://127.0.0.1:4321/proxy.pac",
        ]
    );
    assert!(handle.is_running());
    assert!(!handle.starting);
    assert!(rx1.try_recv().is_err());

    // The server that runs is told to stop when the next start begins, before
    // the next server exists.
    assert_eq!(handle.begin_start(), StopOutcome::Signalled);
    assert_eq!(rx1.try_recv(), Ok(()));
    assert!(!handle.is_running());
    let (tx2, mut rx2) = tokio::sync::oneshot::channel::<()>();
    assert!(setup_pac_proxy(&mut handle, tx2, 4322, Platform::Linux, &vec![]).is_some());
    assert!(rx2.try_recv().is_err());

    let (outcome, commands) = unset_pac_proxy(&mut handle, Platform::Linux, &vec![]);
    assert_eq!(outcome, StopOutcome::Signalled);
    assert_eq!(rx2.try_recv(), Ok(()));
    assert_eq!(commands.len(), 2);
    assert!(!handle.is_running());
    let (again, _) = unset_pac_proxy(&mut handle, Platform::Linux, &vec![]);
    assert_eq!(again, StopOutcome::NotRunning);
}

#[test]
fn a_server_that_was_not_announced_is_sent_away() {
    let mut handle = PacServerShutdownHandle::new();
    let (tx, mut rx) = tokio::sync::oneshot::channel::<()>();
    assert!(setup_pac_proxy(&mut handle, tx, 1, Platform::Linux, &vec![]).is_none());
    assert_eq!(rx.try_recv(), Ok(()));
    assert!(!handle.is_running());

    // A start that was called off does not take a server over either, and the
    // server that is held stays.
    handle.begin_start();
    let (held_tx, mut held_rx) = tokio::sync::oneshot::channel::<()>();
    assert_eq!(handle.finish_start(held_tx), Takeover::Accepted);
    handle.begin_start();
    assert_eq!(held_rx.try_recv(), Ok(()));
    handle.stop();
    let (late_tx, mut late_rx) = tokio::sync::oneshot::channel::<()>();
    assert_eq!(handle.finish_start(late_tx), Takeover::Refused);
    assert_eq!(late_rx.try_recv(), Ok(()));
    assert!(!handle.is_running());
}

#[test]
fn global_mode_stops_the_pac_server_and_clears_the_script_first() {
    let mut handle = PacServerShutdownHandle::new();
    handle.begin_start();
    let (tx, mut rx) = tokio::sync::oneshot::channel::<()>();
    setup_pac_proxy(&mut handle, tx, 4321, Platform::Windows, &vec![]).unwrap();
    let (outcome, commands) =
        setup_global_proxy(&mut handle, Platform::Windows, &vec![], "h", 1, 2, &vec![]);
    assert_eq!(outcome, StopOutcome::Signalled);
    assert_eq!(rx.try_recv(), Ok(()));
    assert!(!handle.is_running());
    assert_eq!(
        lines(Platform::Windows, &commands),
        vec!["delete AutoConfigURL", "ProxyEnable = dword:1", "ProxyServer = http=h:1;https=h:1;socks=h:2"]
    );
    let (outcome, commands) = setup_manual_proxy(&mut handle, Platform::Windows, &vec![]);
    assert_eq!(outcome, StopOutcome::NotRunning);
    assert_eq!(
        lines(Platform::Windows, &commands),
        vec!["ProxyEnable = dword:0", "delete ProxyServer", "delete ProxyOverride", "delete AutoConfigURL"]
    );
}

#[test]
fn stopping_a_server_that_has_gone_is_harmless() {
    let mut handle = PacServerShutdownHandle::new();
    let (tx, rx) = tokio::sync::oneshot::channel::<()>();
    handle.begin_start();
    handle.finish_start(tx);
    drop(rx);
    assert_eq!(handle.stop(), StopOutcome::AlreadyGone);
    assert!(!handle.is_running());
    assert_eq!(pac_url(0), "http://127.0.0.1:0/proxy.pac");
    assert_eq!(pac_url(65535), "http://127.0.0.1:65535/proxy.pac");
}

#[test]
fn proxy_mode_names() {
    assert_eq!(ProxyMode::Manual.name(), "manual");
    assert_eq!(ProxyMode::Pac.name(), "pac");
    assert_eq!(ProxyMode::Global.name(), "global");
    assert_eq!(ProxyMode::parse("pac"), Some(ProxyMode::Pac));
    assert_eq!(ProxyMode::parse("manual"), Some(ProxyMode::Manual));
    assert_eq!(ProxyMode::parse("global"), Some(ProxyMode::Global));
    assert_eq!(ProxyMode::parse("PAC"), None);
    assert_eq!(ProxyMode::parse(""), None);
}
