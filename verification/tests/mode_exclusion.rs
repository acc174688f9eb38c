use std::collections::BTreeMap;

use proxy_core::mode_switch::{apply_global, apply_manual, apply_pac};
use proxy_core::os_proxy::gnome::gnome_arguments;
use proxy_core::os_proxy::macos::mac_arguments;
use proxy_core::os_proxy::windows::{registry_write, RegistryValue};
use proxy_core::os_proxy::ProxyCommand;
use proxy_core::platform::Platform;

/// A registry that remembers what is written to it.
fn write_all(registry: &mut BTreeMap<String, String>, commands: &[ProxyCommand<String>]) {
    for command in commands {
        let write = registry_write(command).unwrap();
        match write.value {
            RegistryValue::Number(n) => {
                registry.insert(write.name, n.to_string());
            }
            RegistryValue::Text(t) => {
                registry.insert(write.name, t);
            }
            RegistryValue::Absent => {
                registry.remove(&write.name);
            }
        }
    }
}

#[test]
fn windows_pac_and_global_never_coexist() {
    let mut registry = BTreeMap::new();
    registry.insert("ProxyOverride".to_string(), "<local>".to_string());
    write_all(&mut registry, &apply_pac(Platform::Windows, &vec![], "http://127.0.0.1:1/proxy.pac"));
    assert_eq!(registry.get("AutoConfigURL").unwrap(), "http://127.0.0.1:1/proxy.pac");
    assert_eq!(registry.get("ProxyEnable").unwrap(), "0");
    assert!(registry.get("ProxyServer").is_none());

    write_all(&mut registry, &apply_global(Platform::Windows, &vec![], "127.0.0.1", 80, 1080, &vec![]));
    assert!(registry.get("AutoConfigURL").is_none());
    assert_eq!(registry.get("ProxyEnable").unwrap(), "1");
    assert_eq!(
        registry.get("ProxyServer").unwrap(),
        "http=127.0.0.1:80;https=127.0.0.1:80;socks=127.0.0.1:1080"
    );

    write_all(&mut registry, &apply_manual(Platform::Windows, &vec![]));
    assert_eq!(registry.get("ProxyEnable").unwrap(), "0");
    assert_eq!(registry.len(), 1);
}

/// A settings store that understands the `gsettings` lines.
fn run_gsettings(store: &mut BTreeMap<String, String>, commands: &[ProxyCommand<String>]) {
    for command in commands {
        let argv = gnome_arguments(command).unwrap();
        assert_eq!(argv[0], "gsettings");
        let key = format!("{} {}", argv[2], argv[3]);
        match argv[1].as_str() {
            "set" => {
                store.insert(key, argv[4].clone());
            }
            "reset" => {
                store.remove(&key);
            }
            other => panic!("unknown gsettings verb {}", other),
        }
    }
}

#[test]
fn gnome_pac_and_global_never_coexist() {
    let mut store = BTreeMap::new();
    run_gsettings(&mut store, &apply_pac(Platform::Linux, &vec![], "http://u/proxy.pac"));
    assert_eq!(store.get("org.gnome.system.proxy mode").unwrap(), "auto");
    assert_eq!(store.get("org.gnome.system.proxy autoconfig-url").unwrap(), "http://u/proxy.pac");
    assert_eq!(store.len(), 2);

    run_gsettings(&mut store, &apply_global(Platform::Linux, &vec![], "127.0.0.1", 80, 1080, &vec![]));
    assert_eq!(store.get("org.gnome.system.proxy mode").unwrap(), "manual");
    assert!(store.get("org.gnome.system.proxy autoconfig-url").is_none());
    assert_eq!(store.get("org.gnome.system.proxy.http host").unwrap(), "127.0.0.1");
    assert_eq!(store.get("org.gnome.system.proxy.https port").unwrap(), "80");
    assert_eq!(store.get("org.gnome.system.proxy.socks port").unwrap(), "1080");

    run_gsettings(&mut store, &apply_manual(Platform::Linux, &vec![]));
    assert_eq!(store.get("org.gnome.system.proxy mode").unwrap(), "none");
    assert_eq!(store.len(), 1);

    // Switching twice changes nothing more.
    let before = store.clone();
    run_gsettings(&mut store, &apply_manual(Platform::Linux, &vec![]));
    assert_eq!(store, before);
}

#[test]
fn macos_pac_is_switched_off_before_global_is_switched_on() {
    let services = vec!["Wi-Fi".to_string()];
    let lines: Vec<String> = apply_global(Platform::MacOs, &services, "h", 1, 2, &vec![])
        .iter()
        .map(|c| mac_arguments(c).unwrap().join(" "))
        .collect();
    assert_eq!(lines[0], "networksetup -setautoproxystate Wi-Fi off");
    assert_eq!(lines[1], "networksetup -setwebproxy Wi-Fi h 1");
    let lines: Vec<String> = apply_pac(Platform::MacOs, &services, "http://u")
        .iter()
        .map(|c| mac_arguments(c).unwrap().join(" "))
        .collect();
    assert_eq!(
        lines,
        vec![
            "networksetup -setwebproxystate Wi-Fi off",
            "networksetup -setsecurewebproxystate Wi-Fi off",
            "networksetup -setsocksfirewallproxystate Wi-Fi off",
            "networksetup -setautoproxyurl Wi-Fi http://u",
            "networksetup -setautoproxystate Wi-Fi on",
        ]
    );
}
