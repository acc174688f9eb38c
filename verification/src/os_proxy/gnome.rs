//! The GNOME backend: settings under `org.gnome.system.proxy`, changed with
//! `gsettings`.

use crate::os_proxy::{models, GnomeMode, ProxyCommand, ProxyKind};
use crate::text::{
    chars_of, decimal, decimal_chars, extend_chars, join, joined, string_of, strings, wrap_each,
    wrapped,
};
use vstd::prelude::*;
use vstd::string::*;

verus! {

/// The schema that holds the settings of a fixed proxy.
pub open spec fn kind_schema(kind: ProxyKind) -> Seq<char> {
    match kind {
        ProxyKind::Http => "org.gnome.system.proxy.http"@,
        ProxyKind::Https => "org.gnome.system.proxy.https"@,
        ProxyKind::Socks => "org.gnome.system.proxy.socks"@,
    }
}

/// The name of a proxy mode.
pub open spec fn mode_name(mode: GnomeMode) -> Seq<char> {
    match mode {
        GnomeMode::Off => "none"@,
        GnomeMode::Manual => "manual"@,
        GnomeMode::Auto => "auto"@,
    }
}

/// The `gsettings` invocation that sets a key.
pub open spec fn gsettings_set(schema: Seq<char>, key: Seq<char>, value: Seq<char>) -> Seq<
    Seq<char>,
> {
    seq!["gsettings"@, "set"@, schema, key, value]
}

/// The `gsettings` invocation that resets a key.
pub open spec fn gsettings_reset(schema: Seq<char>, key: Seq<char>) -> Seq<Seq<char>> {
    seq!["gsettings"@, "reset"@, schema, key]
}

/// The `gsettings` invocation that sets a key or, without a value, resets it.
pub open spec fn gsettings_line(schema: Seq<char>, key: Seq<char>, value: Option<Seq<char>>) -> Seq<
    Seq<char>,
> {
    match value {
        Some(v) => gsettings_set(schema, key, v),
        None => gsettings_reset(schema, key),
    }
}

/// The program and arguments that carry out a GNOME command; none for a
/// command of another backend.
pub open spec fn gnome_line(command: ProxyCommand<Seq<char>>) -> Option<Seq<Seq<char>>> {
    match command {
        ProxyCommand::GnomeMode(m) => Some(
            gsettings_set("org.gnome.system.proxy"@, "mode"@, mode_name(m)),
        ),
        ProxyCommand::GnomeAutoconfigUrl(u) => Some(
            gsettings_line("org.gnome.system.proxy"@, "autoconfig-url"@, u),
        ),
        ProxyCommand::GnomeHost(k, h) => Some(gsettings_line(kind_schema(k), "host"@, h)),
        ProxyCommand::GnomePort(k, p) => Some(
            gsettings_line(
                kind_schema(k),
                "port"@,
                match p {
                    Some(n) => Some(decimal(n as nat)),
                    None => None,
                },
            ),
        ),
        ProxyCommand::GnomeIgnoreHosts(t) => Some(
            gsettings_line("org.gnome.system.proxy"@, "ignore-hosts"@, t),
        ),
        _ => None,
    }
}

fn schema_of(kind: ProxyKind) -> (schema: &'static str)
    ensures
        schema@ == kind_schema(kind),
{
    match kind {
        ProxyKind::Http => "org.gnome.system.proxy.http",
        ProxyKind::Https => "org.gnome.system.proxy.https",
        ProxyKind::Socks => "org.gnome.system.proxy.socks",
    }
}

fn line(schema: &str, key: &str, value: Option<&str>) -> (argv: Vec<String>)
    ensures
        strings(argv@) == gsettings_line(
            schema@,
            key@,
            match value {
                Some(v) => Some(v@),
                None => None,
            },
        ),
{
    let mut argv: Vec<String> = Vec::new();
    argv.push("gsettings".to_owned());
    match value {
        Some(v) => {
            argv.push("set".to_owned());
            argv.push(schema.to_owned());
            argv.push(key.to_owned());
            argv.push(v.to_owned());
            assert(strings(argv@) =~= gsettings_set(schema@, key@, v@));
        },
        None => {
            argv.push("reset".to_owned());
            argv.push(schema.to_owned());
            argv.push(key.to_owned());
            assert(strings(argv@) =~= gsettings_reset(schema@, key@));
        },
    }
    argv
}

fn optional_str(value: &Option<String>) -> (text: Option<&str>)
    ensures
        match text {
            Some(t) => value is Some && t@ == value->0@,
            None => value is None,
        },
{
    match value {
        Some(v) => Some(v.as_str()),
        None => None,
    }
}

/// Writes a GNOME command as program and arguments.
pub fn gnome_arguments(command: &ProxyCommand<String>) -> (argv: Option<Vec<String>>)
    ensures
        match argv {
            Some(a) => gnome_line(command@) == Some(strings(a@)),
            None => gnome_line(command@) is None,
        },
{
    match command {
        ProxyCommand::GnomeMode(m) => {
            let name = match m {
                GnomeMode::Off => "none",
                GnomeMode::Manual => "manual",
                GnomeMode::Auto => "auto",
            };
            Some(line("org.gnome.system.proxy", "mode", Some(name)))
        },
        ProxyCommand::GnomeAutoconfigUrl(u) => Some(
            line("org.gnome.system.proxy", "autoconfig-url", optional_str(u)),
        ),
        ProxyCommand::GnomeHost(k, h) => Some(line(schema_of(*k), "host", optional_str(h))),
        ProxyCommand::GnomePort(k, p) => match p {
            Some(n) => {
                let digits = string_of(&decimal_chars(*n as u64));
                Some(line(schema_of(*k), "port", Some(digits.as_str())))
            },
            None => Some(line(schema_of(*k), "port", None)),
        },
        ProxyCommand::GnomeIgnoreHosts(t) => Some(
            line("org.gnome.system.proxy", "ignore-hosts", optional_str(t)),
        ),
        _ => None,
    }
}

/// The list of bypass domains as the value of `ignore-hosts`: each domain
/// between single quotes, the domains separated by a comma and a space, the
/// whole between square brackets.
pub open spec fn ignore_hosts_text(domains: Seq<Seq<char>>) -> Seq<char> {
    "["@ + joined(wrapped(domains, "'"@, "'"@), ", "@) + "]"@
}

/// Writes the list of bypass domains as the value of `ignore-hosts`.
pub fn ignore_hosts(domains: &Vec<String>) -> (value: String)
    ensures
        value@ == ignore_hosts_text(strings(domains@)),
{
    let items = wrap_each(domains, "'", "'");
    let list = join(&items, &chars_of(", "));
    let mut out = chars_of("[");
    extend_chars(&mut out, &list);
    extend_chars(&mut out, &chars_of("]"));
    string_of(&out)
}

/// The commands that put the fixed proxies in place: manual mode, then host
/// and port of each proxy, then the bypass list where there is one.
pub open spec fn set_global_plan(
    host: Seq<char>,
    http_port: u16,
    socks_port: u16,
    bypass: Seq<Seq<char>>,
) -> Seq<ProxyCommand<Seq<char>>> {
    seq![
        ProxyCommand::GnomeMode(GnomeMode::Manual),
        ProxyCommand::GnomeHost(ProxyKind::Http, Some(host)),
        ProxyCommand::GnomePort(ProxyKind::Http, Some(http_port)),
        ProxyCommand::GnomeHost(ProxyKind::Https, Some(host)),
        ProxyCommand::GnomePort(ProxyKind::Https, Some(http_port)),
        ProxyCommand::GnomeHost(ProxyKind::Socks, Some(host)),
        ProxyCommand::GnomePort(ProxyKind::Socks, Some(socks_port)),
    ] + (if bypass.len() > 0 {
        seq![ProxyCommand::GnomeIgnoreHosts(Some(ignore_hosts_text(bypass)))]
    } else {
        Seq::empty()
    })
}

/// Sets the global proxy on GNOME.
pub fn set_global_proxy_linux(
    host: &str,
    http_port: u16,
    socks_port: u16,
    bypass_domains: &Vec<String>,
) -> (commands: Vec<ProxyCommand<String>>)
    ensures
        models(commands@) == set_global_plan(
            host@,
            http_port,
            socks_port,
            strings(bypass_domains@),
        ),
{
    let mut commands: Vec<ProxyCommand<String>> = Vec::new();
    commands.push(ProxyCommand::GnomeMode(GnomeMode::Manual));
    commands.push(ProxyCommand::GnomeHost(ProxyKind::Http, Some(host.to_owned())));
    commands.push(ProxyCommand::GnomePort(ProxyKind::Http, Some(http_port)));
    commands.push(ProxyCommand::GnomeHost(ProxyKind::Https, Some(host.to_owned())));
    commands.push(ProxyCommand::GnomePort(ProxyKind::Https, Some(http_port)));
    commands.push(ProxyCommand::GnomeHost(ProxyKind::Socks, Some(host.to_owned())));
    commands.push(ProxyCommand::GnomePort(ProxyKind::Socks, Some(socks_port)));
    let ghost head = models(commands@);
    assert(head =~= seq![
        ProxyCommand::GnomeMode(GnomeMode::Manual),
        ProxyCommand::GnomeHost(ProxyKind::Http, Some(host@)),
        ProxyCommand::GnomePort(ProxyKind::Http, Some(http_port)),
        ProxyCommand::GnomeHost(ProxyKind::Https, Some(host@)),
        ProxyCommand::GnomePort(ProxyKind::Https, Some(http_port)),
        ProxyCommand::GnomeHost(ProxyKind::Socks, Some(host@)),
        ProxyCommand::GnomePort(ProxyKind::Socks, Some(socks_port)),
    ]);
    if bypass_domains.len() > 0 {
        commands.push(ProxyCommand::GnomeIgnoreHosts(Some(ignore_hosts(bypass_domains))));
        assert(models(commands@) =~= head + seq![
            ProxyCommand::GnomeIgnoreHosts(Some(ignore_hosts_text(strings(bypass_domains@)))),
        ]);
    } else {
        assert(models(commands@) =~= head + Seq::<ProxyCommand<Seq<char>>>::empty());
    }
    commands
}

/// The commands that take the fixed proxies away: mode none, every host and
/// port reset, the bypass list reset.
pub open spec fn unset_global_plan() -> Seq<ProxyCommand<Seq<char>>> {
    seq![
        ProxyCommand::GnomeMode(GnomeMode::Off),
        ProxyCommand::GnomeHost(ProxyKind::Http, None),
        ProxyCommand::GnomePort(ProxyKind::Http, None),
        ProxyCommand::GnomeHost(ProxyKind::Https, None),
        ProxyCommand::GnomePort(ProxyKind::Https, None),
        ProxyCommand::GnomeHost(ProxyKind::Socks, None),
        ProxyCommand::GnomePort(ProxyKind::Socks, None),
        ProxyCommand::GnomeIgnoreHosts(None),
    ]
}

/// Unsets the global proxy on GNOME.
pub fn unset_global_proxy_linux() -> (commands: Vec<ProxyCommand<String>>)
    ensures
        models(commands@) == unset_global_plan(),
{
    let mut commands: Vec<ProxyCommand<String>> = Vec::new();
    commands.push(ProxyCommand::GnomeMode(GnomeMode::Off));
    commands.push(ProxyCommand::GnomeHost(ProxyKind::Http, None));
    commands.push(ProxyCommand::GnomePort(ProxyKind::Http, None));
    commands.push(ProxyCommand::GnomeHost(ProxyKind::Https, None));
    commands.push(ProxyCommand::GnomePort(ProxyKind::Https, None));
    commands.push(ProxyCommand::GnomeHost(ProxyKind::Socks, None));
    commands.push(ProxyCommand::GnomePort(ProxyKind::Socks, None));
    commands.push(ProxyCommand::GnomeIgnoreHosts(None));
    assert(models(commands@) =~= unset_global_plan());
    commands
}

/// The commands that put the auto-config script in place.
pub open spec fn set_pac_plan(pac_url: Seq<char>) -> Seq<ProxyCommand<Seq<char>>> {
    seq![
        ProxyCommand::GnomeMode(GnomeMode::Auto),
        ProxyCommand::GnomeAutoconfigUrl(Some(pac_url)),
    ]
}

/// Sets the PAC proxy on GNOME.
pub fn set_pac_proxy_linux(pac_url: &str) -> (commands: Vec<ProxyCommand<String>>)
    ensures
        models(commands@) == set_pac_plan(pac_url@),
{
    let mut commands: Vec<ProxyCommand<String>> = Vec::new();
    commands.push(ProxyCommand::GnomeMode(GnomeMode::Auto));
    commands.push(ProxyCommand::GnomeAutoconfigUrl(Some(pac_url.to_owned())));
    assert(models(commands@) =~= set_pac_plan(pac_url@));
    commands
}

/// The commands that take the auto-config script away.
pub open spec fn unset_pac_plan() -> Seq<ProxyCommand<Seq<char>>> {
    seq![ProxyCommand::GnomeMode(GnomeMode::Off), ProxyCommand::GnomeAutoconfigUrl(None)]
}

/// Unsets the PAC proxy on GNOME.
pub fn unset_pac_proxy_linux() -> (commands: Vec<ProxyCommand<String>>)
    ensures
        models(commands@) == unset_pac_plan(),
{
    let mut commands: Vec<ProxyCommand<String>> = Vec::new();
    commands.push(ProxyCommand::GnomeMode(GnomeMode::Off));
    commands.push(ProxyCommand::GnomeAutoconfigUrl(None));
    assert(models(commands@) =~= unset_pac_plan());
    commands
}

} // verus!
