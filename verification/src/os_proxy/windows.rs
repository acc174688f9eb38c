//! The Windows backend: values under the current user's Internet Settings
//! key of the registry.

use crate::os_proxy::{models, ProxyCommand};
use crate::text::{chars_of, decimal, extend_chars, push_decimal, string_of};
use vstd::prelude::*;
use vstd::string::*;

verus! {

/// The registry key, below the current user's root, that holds the values.
pub open spec fn settings_key() -> Seq<char> {
    "Software\\Microsoft\\Windows\\CurrentVersion\\Internet Settings"@
}

pub fn internet_settings_key() -> (key: String)
    ensures
        key@ == settings_key(),
{
    "Software\\Microsoft\\Windows\\CurrentVersion\\Internet Settings".to_owned()
}

/// What is written to a registry value. `T` is the type of texts.
pub enum RegistryValue<T> {
    Number(u32),
    Text(T),
    /// The value is deleted.
    Absent,
}

/// One write to the registry. `T` is the type of texts.
pub struct RegistryWrite<T> {
    pub name: T,
    pub value: RegistryValue<T>,
}

impl View for RegistryWrite<String> {
    type V = RegistryWrite<Seq<char>>;

    open spec fn view(&self) -> RegistryWrite<Seq<char>> {
        RegistryWrite {
            name: self.name@,
            value: match self.value {
                RegistryValue::Number(n) => RegistryValue::Number(n),
                RegistryValue::Text(t) => RegistryValue::Text(t@),
                RegistryValue::Absent => RegistryValue::Absent,
            },
        }
    }
}

/// The value of `ProxyServer`: one address per protocol.
pub open spec fn proxy_server_text(host: Seq<char>, http_port: u16, socks_port: u16) -> Seq<char> {
    "http="@ + host + ":"@ + decimal(http_port as nat) + ";https="@ + host + ":"@ + decimal(
        http_port as nat,
    ) + ";socks="@ + host + ":"@ + decimal(socks_port as nat)
}

pub fn proxy_server(host: &str, http_port: u16, socks_port: u16) -> (value: String)
    ensures
        value@ == proxy_server_text(host@, http_port, socks_port),
{
    let h = chars_of(host);
    let colon = chars_of(":");
    let mut out = chars_of("http=");
    extend_chars(&mut out, &h);
    extend_chars(&mut out, &colon);
    push_decimal(&mut out, http_port as u64);
    extend_chars(&mut out, &chars_of(";https="));
    extend_chars(&mut out, &h);
    extend_chars(&mut out, &colon);
    push_decimal(&mut out, http_port as u64);
    extend_chars(&mut out, &chars_of(";socks="));
    extend_chars(&mut out, &h);
    extend_chars(&mut out, &colon);
    push_decimal(&mut out, socks_port as u64);
    string_of(&out)
}

/// The registry write that carries out a Windows command; none for a command
/// of another backend.
pub open spec fn registry_write_of(command: ProxyCommand<Seq<char>>) -> Option<
    RegistryWrite<Seq<char>>,
> {
    match command {
        ProxyCommand::RegistryProxyEnable(on) => Some(
            RegistryWrite {
                name: "ProxyEnable"@,
                value: RegistryValue::Number(
                    if on {
                        1u32
                    } else {
                        0u32
                    },
                ),
            },
        ),
        ProxyCommand::RegistryProxyServer(Some((host, http_port, socks_port))) => Some(
            RegistryWrite {
                name: "ProxyServer"@,
                value: RegistryValue::Text(proxy_server_text(host, http_port, socks_port)),
            },
        ),
        ProxyCommand::RegistryProxyServer(None) => Some(
            RegistryWrite { name: "ProxyServer"@, value: RegistryValue::Absent },
        ),
        ProxyCommand::RegistryDeleteProxyOverride => Some(
            RegistryWrite { name: "ProxyOverride"@, value: RegistryValue::Absent },
        ),
        ProxyCommand::RegistryAutoConfigUrl(Some(url)) => Some(
            RegistryWrite { name: "AutoConfigURL"@, value: RegistryValue::Text(url) },
        ),
        ProxyCommand::RegistryAutoConfigUrl(None) => Some(
            RegistryWrite { name: "AutoConfigURL"@, value: RegistryValue::Absent },
        ),
        _ => None,
    }
}

/// Writes a Windows command as a registry write.
pub fn registry_write(command: &ProxyCommand<String>) -> (write: Option<RegistryWrite<String>>)
    ensures
        match write {
            Some(w) => registry_write_of(command@) == Some(w@),
            None => registry_write_of(command@) is None,
        },
{
    match command {
        ProxyCommand::RegistryProxyEnable(on) => Some(
            RegistryWrite {
                name: "ProxyEnable".to_owned(),
                value: RegistryValue::Number(
                    if *on {
                        1
                    } else {
                        0
                    },
                ),
            },
        ),
        ProxyCommand::RegistryProxyServer(Some((host, http_port, socks_port))) => Some(
            RegistryWrite {
                name: "ProxyServer".to_owned(),
                value: RegistryValue::Text(proxy_server(host.as_str(), *http_port, *socks_port)),
            },
        ),
        ProxyCommand::RegistryProxyServer(None) => Some(
            RegistryWrite { name: "ProxyServer".to_owned(), value: RegistryValue::Absent },
        ),
        ProxyCommand::RegistryDeleteProxyOverride => Some(
            RegistryWrite { name: "ProxyOverride".to_owned(), value: RegistryValue::Absent },
        ),
        ProxyCommand::RegistryAutoConfigUrl(Some(url)) => Some(
            RegistryWrite { name: "AutoConfigURL".to_owned(), value: RegistryValue::Text(url.clone()) },
        ),
        ProxyCommand::RegistryAutoConfigUrl(None) => Some(
            RegistryWrite { name: "AutoConfigURL".to_owned(), value: RegistryValue::Absent },
        ),
        _ => None,
    }
}

/// The commands that put the fixed proxies in place.
pub open spec fn set_global_plan(host: Seq<char>, http_port: u16, socks_port: u16) -> Seq<
    ProxyCommand<Seq<char>>,
> {
    seq![
        ProxyCommand::RegistryProxyEnable(true),
        ProxyCommand::RegistryProxyServer(Some((host, http_port, socks_port))),
    ]
}

/// Sets the global proxy on Windows.
pub fn set_global_proxy_windows(host: &str, http_port: u16, socks_port: u16) -> (commands: Vec<
    ProxyCommand<String>,
>)
    ensures
        models(commands@) == set_global_plan(host@, http_port, socks_port),
{
    let mut commands: Vec<ProxyCommand<String>> = Vec::new();
    commands.push(ProxyCommand::RegistryProxyEnable(true));
    commands.push(ProxyCommand::RegistryProxyServer(Some((host.to_owned(), http_port, socks_port))));
    assert(models(commands@) =~= set_global_plan(host@, http_port, socks_port));
    commands
}

/// The commands that take the fixed proxies away.
pub open spec fn unset_global_plan() -> Seq<ProxyCommand<Seq<char>>> {
    seq![
        ProxyCommand::RegistryProxyEnable(false),
        ProxyCommand::RegistryProxyServer(None),
        ProxyCommand::RegistryDeleteProxyOverride,
    ]
}

/// Unsets the global proxy on Windows.
pub fn unset_global_proxy_windows() -> (commands: Vec<ProxyCommand<String>>)
    ensures
        models(commands@) == unset_global_plan(),
{
    let mut commands: Vec<ProxyCommand<String>> = Vec::new();
    commands.push(ProxyCommand::RegistryProxyEnable(false));
    commands.push(ProxyCommand::RegistryProxyServer(None));
    commands.push(ProxyCommand::RegistryDeleteProxyOverride);
    assert(models(commands@) =~= unset_global_plan());
    commands
}

/// The commands that put the auto-config script in place.
pub open spec fn set_pac_plan(pac_url: Seq<char>) -> Seq<ProxyCommand<Seq<char>>> {
    seq![
        ProxyCommand::RegistryAutoConfigUrl(Some(pac_url)),
        ProxyCommand::RegistryProxyEnable(false),
    ]
}

/// Sets the PAC proxy on Windows.
pub fn set_pac_proxy_windows(pac_url: &str) -> (commands: Vec<ProxyCommand<String>>)
    ensures
        models(commands@) == set_pac_plan(pac_url@),
{
    let mut commands: Vec<ProxyCommand<String>> = Vec::new();
    commands.push(ProxyCommand::RegistryAutoConfigUrl(Some(pac_url.to_owned())));
    commands.push(ProxyCommand::RegistryProxyEnable(false));
    assert(models(commands@) =~= set_pac_plan(pac_url@));
    commands
}

/// The command that takes the auto-config script away.
pub open spec fn unset_pac_plan() -> Seq<ProxyCommand<Seq<char>>> {
    seq![ProxyCommand::RegistryAutoConfigUrl(None)]
}

/// Unsets the PAC proxy on Windows.
pub fn unset_pac_proxy_windows() -> (commands: Vec<ProxyCommand<String>>)
    ensures
        models(commands@) == unset_pac_plan(),
{
    let mut commands: Vec<ProxyCommand<String>> = Vec::new();
    commands.push(ProxyCommand::RegistryAutoConfigUrl(None));
    assert(models(commands@) =~= unset_pac_plan());
    commands
}

} // verus!
