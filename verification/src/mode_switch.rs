//! The switch between the three proxy modes of the operating system: manual
//! (no system proxy), PAC (an auto-config script decides) and global (fixed
//! proxies). Each switch first clears the other mode's settings, so that the
//! two mechanisms are never in effect together.

use crate::os_proxy::gnome::{
    set_global_proxy_linux, set_pac_proxy_linux, unset_global_proxy_linux, unset_pac_proxy_linux,
};
use crate::os_proxy::macos::{
    plan_for_all, set_global_proxy_macos, set_pac_proxy_macos, unset_global_proxy_macos,
    unset_pac_proxy_macos, ServicePlan,
};
use crate::os_proxy::windows::{
    set_global_proxy_windows, set_pac_proxy_windows, unset_global_proxy_windows,
    unset_pac_proxy_windows,
};
use crate::os_proxy::{models, ProxyCommand};
use crate::pac_server::{pac_url, pac_url_for, PacServerShutdownHandle, StopOutcome, Takeover};
use crate::platform::Platform;
use crate::text::{same_text, strings};
use vstd::prelude::*;
use vstd::string::*;

verus! {

/// The proxy mode of the operating system.
#[derive(Clone, Copy, Debug, PartialEq, Eq, Structural)]
pub enum ProxyMode {
    Manual,
    Pac,
    Global,
}

/// The name under which a mode is stored.
pub open spec fn mode_text(mode: ProxyMode) -> Seq<char> {
    match mode {
        ProxyMode::Manual => "manual"@,
        ProxyMode::Pac => "pac"@,
        ProxyMode::Global => "global"@,
    }
}

impl ProxyMode {
    /// The name under which the mode is stored.
    pub fn name(self) -> (text: &'static str)
        ensures
            text@ == mode_text(self),
    {
        match self {
            ProxyMode::Manual => "manual",
            ProxyMode::Pac => "pac",
            ProxyMode::Global => "global",
        }
    }

    /// The mode that a stored name stands for.
    pub fn parse(text: &str) -> (mode: Option<ProxyMode>)
        ensures
            mode == (if text@ == "manual"@ {
                Some(ProxyMode::Manual)
            } else if text@ == "pac"@ {
                Some(ProxyMode::Pac)
            } else if text@ == "global"@ {
                Some(ProxyMode::Global)
            } else {
                None
            }),
    {
        if same_text(text, "manual") {
            Some(ProxyMode::Manual)
        } else if same_text(text, "pac") {
            Some(ProxyMode::Pac)
        } else if same_text(text, "global") {
            Some(ProxyMode::Global)
        } else {
            None
        }
    }
}

// ---------------------------------------------------------------------------
// The four elementary plans, on every backend
// ---------------------------------------------------------------------------

/// The commands that put the fixed proxies in place. On macOS they address
/// every given network service; elsewhere the services play no part. A
/// system without backend gets no commands.
pub open spec fn set_global_plan(
    platform: Platform,
    services: Seq<Seq<char>>,
    host: Seq<char>,
    http_port: u16,
    socks_port: u16,
    bypass: Seq<Seq<char>>,
) -> Seq<ProxyCommand<Seq<char>>> {
    match platform {
        Platform::Windows => crate::os_proxy::windows::set_global_plan(
            host,
            http_port,
            socks_port,
        ),
        Platform::MacOs => plan_for_all(
            ServicePlan::SetGlobal { host, http_port, socks_port, bypass },
            services,
        ),
        Platform::Linux => crate::os_proxy::gnome::set_global_plan(
            host,
            http_port,
            socks_port,
            bypass,
        ),
        Platform::Other => Seq::empty(),
    }
}

/// The commands that take the fixed proxies away.
pub open spec fn unset_global_plan(platform: Platform, services: Seq<Seq<char>>) -> Seq<
    ProxyCommand<Seq<char>>,
> {
    match platform {
        Platform::Windows => crate::os_proxy::windows::unset_global_plan(),
        Platform::MacOs => plan_for_all(
            ServicePlan::UnsetGlobal { bypass: Seq::empty() },
            services,
        ),
        Platform::Linux => crate::os_proxy::gnome::unset_global_plan(),
        Platform::Other => Seq::empty(),
    }
}

/// The commands that put the auto-config script in place.
pub open spec fn set_pac_plan(platform: Platform, services: Seq<Seq<char>>, url: Seq<char>) -> Seq<
    ProxyCommand<Seq<char>>,
> {
    match platform {
        Platform::Windows => crate::os_proxy::windows::set_pac_plan(url),
        Platform::MacOs => plan_for_all(ServicePlan::SetPac { pac_url: url }, services),
        Platform::Linux => crate::os_proxy::gnome::set_pac_plan(url),
        Platform::Other => Seq::empty(),
    }
}

/// The commands that take the auto-config script away.
pub open spec fn unset_pac_plan(platform: Platform, services: Seq<Seq<char>>) -> Seq<
    ProxyCommand<Seq<char>>,
> {
    match platform {
        Platform::Windows => crate::os_proxy::windows::unset_pac_plan(),
        Platform::MacOs => plan_for_all(ServicePlan::UnsetPac, services),
        Platform::Linux => crate::os_proxy::gnome::unset_pac_plan(),
        Platform::Other => Seq::empty(),
    }
}

/// The commands that put the fixed proxies in place on the given platform.
pub fn set_global_proxy(
    platform: Platform,
    services: &Vec<String>,
    host: &str,
    http_port: u16,
    socks_port: u16,
    bypass_domains: &Vec<String>,
) -> (commands: Vec<ProxyCommand<String>>)
    ensures
        models(commands@) == set_global_plan(
            platform,
            strings(services@),
            host@,
            http_port,
            socks_port,
            strings(bypass_domains@),
        ),
{
    match platform {
        Platform::Windows => set_global_proxy_windows(host, http_port, socks_port),
        Platform::MacOs => set_global_proxy_macos(
            services,
            host,
            http_port,
            socks_port,
            bypass_domains,
        ),
        Platform::Linux => set_global_proxy_linux(host, http_port, socks_port, bypass_domains),
        Platform::Other => {
            let commands: Vec<ProxyCommand<String>> = Vec::new();
            assert(models(commands@) =~= Seq::<ProxyCommand<Seq<char>>>::empty());
            commands
        },
    }
}

/// Unsets the global proxy: the commands that take the fixed proxies away.
pub fn unset_global_proxy(platform: Platform, services: &Vec<String>) -> (commands: Vec<
    ProxyCommand<String>,
>)
    ensures
        models(commands@) == unset_global_plan(platform, strings(services@)),
{
    match platform {
        Platform::Windows => unset_global_proxy_windows(),
        Platform::MacOs => {
            let none: Vec<String> = Vec::new();
            assert(strings(none@) =~= Seq::<Seq<char>>::empty());
            unset_global_proxy_macos(services, &none)
        },
        Platform::Linux => unset_global_proxy_linux(),
        Platform::Other => {
            let commands: Vec<ProxyCommand<String>> = Vec::new();
            assert(models(commands@) =~= Seq::<ProxyCommand<Seq<char>>>::empty());
            commands
        },
    }
}

/// The commands that make the system use the script at `pac_url`.
pub fn set_pac_proxy(platform: Platform, services: &Vec<String>, pac_url: &str) -> (commands: Vec<
    ProxyCommand<String>,
>)
    ensures
        models(commands@) == set_pac_plan(platform, strings(services@), pac_url@),
{
    match platform {
        Platform::Windows => set_pac_proxy_windows(pac_url),
        Platform::MacOs => set_pac_proxy_macos(services, pac_url),
        Platform::Linux => set_pac_proxy_linux(pac_url),
        Platform::Other => {
            let commands: Vec<ProxyCommand<String>> = Vec::new();
            assert(models(commands@) =~= Seq::<ProxyCommand<Seq<char>>>::empty());
            commands
        },
    }
}

/// The commands that make the system forget the script.
pub fn clear_pac_proxy(platform: Platform, services: &Vec<String>) -> (commands: Vec<
    ProxyCommand<String>,
>)
    ensures
        models(commands@) == unset_pac_plan(platform, strings(services@)),
{
    match platform {
        Platform::Windows => unset_pac_proxy_windows(),
        Platform::MacOs => unset_pac_proxy_macos(services),
        Platform::Linux => unset_pac_proxy_linux(),
        Platform::Other => {
            let commands: Vec<ProxyCommand<String>> = Vec::new();
            assert(models(commands@) =~= Seq::<ProxyCommand<Seq<char>>>::empty());
            commands
        },
    }
}

/// Unsets PAC mode: the server is stopped, if one is held, and the system is
/// made to forget the script.
pub fn unset_pac_proxy(
    state: &mut PacServerShutdownHandle,
    platform: Platform,
    services: &Vec<String>,
) -> (result: (StopOutcome, Vec<ProxyCommand<String>>))
    ensures
        final(state).shutdown_tx is None,
        !final(state).starting,
        result.0 == StopOutcome::NotRunning <==> old(state).shutdown_tx is None,
        models(result.1@) == unset_pac_plan(platform, strings(services@)),
{
    let outcome = state.stop();
    (outcome, clear_pac_proxy(platform, services))
}

// ---------------------------------------------------------------------------
// The three modes
// ---------------------------------------------------------------------------

/// The commands for manual mode: the fixed proxies are taken away, then the
/// script.
pub open spec fn apply_manual_plan(platform: Platform, services: Seq<Seq<char>>) -> Seq<
    ProxyCommand<Seq<char>>,
> {
    unset_global_plan(platform, services) + unset_pac_plan(platform, services)
}

/// The commands for PAC mode: the fixed proxies are taken away, then the
/// script is put in place.
pub open spec fn apply_pac_plan(platform: Platform, services: Seq<Seq<char>>, url: Seq<char>) -> Seq<
    ProxyCommand<Seq<char>>,
> {
    unset_global_plan(platform, services) + set_pac_plan(platform, services, url)
}

/// The commands for global mode: the script is taken away, then the fixed
/// proxies are put in place.
pub open spec fn apply_global_plan(
    platform: Platform,
    services: Seq<Seq<char>>,
    host: Seq<char>,
    http_port: u16,
    socks_port: u16,
    bypass: Seq<Seq<char>>,
) -> Seq<ProxyCommand<Seq<char>>> {
    unset_pac_plan(platform, services) + set_global_plan(
        platform,
        services,
        host,
        http_port,
        socks_port,
        bypass,
    )
}

fn concat(mut first: Vec<ProxyCommand<String>>, mut second: Vec<ProxyCommand<String>>) -> (all:
    Vec<ProxyCommand<String>>)
    ensures
        models(all@) == models(first@) + models(second@),
{
    let ghost a = models(first@);
    let ghost b = models(second@);
    first.append(&mut second);
    assert(models(first@) =~= a + b);
    first
}

/// Switches to manual mode.
pub fn apply_manual(platform: Platform, services: &Vec<String>) -> (commands: Vec<
    ProxyCommand<String>,
>)
    ensures
        models(commands@) == apply_manual_plan(platform, strings(services@)),
{
    concat(unset_global_proxy(platform, services), clear_pac_proxy(platform, services))
}

/// Switches to PAC mode with the script at `pac_url`.
pub fn apply_pac(platform: Platform, services: &Vec<String>, pac_url: &str) -> (commands: Vec<
    ProxyCommand<String>,
>)
    ensures
        models(commands@) == apply_pac_plan(platform, strings(services@), pac_url@),
{
    concat(unset_global_proxy(platform, services), set_pac_proxy(platform, services, pac_url))
}

/// Switches to global mode with fixed proxies on `host`.
pub fn apply_global(
    platform: Platform,
    services: &Vec<String>,
    host: &str,
    http_port: u16,
    socks_port: u16,
    bypass_domains: &Vec<String>,
) -> (commands: Vec<ProxyCommand<String>>)
    ensures
        models(commands@) == apply_global_plan(
            platform,
            strings(services@),
            host@,
            http_port,
            socks_port,
            strings(bypass_domains@),
        ),
{
    concat(
        clear_pac_proxy(platform, services),
        set_global_proxy(platform, services, host, http_port, socks_port, bypass_domains),
    )
}

/// Switches to manual mode: the PAC server is stopped, if one is held, and
/// the system is left without fixed proxies and without script.
pub fn setup_manual_proxy(
    state: &mut PacServerShutdownHandle,
    platform: Platform,
    services: &Vec<String>,
) -> (result: (StopOutcome, Vec<ProxyCommand<String>>))
    ensures
        final(state).shutdown_tx is None,
        !final(state).starting,
        result.0 == StopOutcome::NotRunning <==> old(state).shutdown_tx is None,
        models(result.1@) == apply_manual_plan(platform, strings(services@)),
{
    let outcome = state.stop();
    (outcome, apply_manual(platform, services))
}

/// Sets up the global proxy: the PAC server is stopped, if one is held; the
/// script is taken away from the system, then the fixed proxies are put in
/// place.
pub fn setup_global_proxy(
    state: &mut PacServerShutdownHandle,
    platform: Platform,
    services: &Vec<String>,
    host: &str,
    http_port: u16,
    socks_port: u16,
    bypass_domains: &Vec<String>,
) -> (result: (StopOutcome, Vec<ProxyCommand<String>>))
    ensures
        final(state).shutdown_tx is None,
        !final(state).starting,
        result.0 == StopOutcome::NotRunning <==> old(state).shutdown_tx is None,
        models(result.1@) == apply_global_plan(
            platform,
            strings(services@),
            host@,
            http_port,
            socks_port,
            strings(bypass_domains@),
        ),
{
    let outcome = state.stop();
    (outcome, apply_global(platform, services, host, http_port, socks_port, bypass_domains))
}

/// What setting up PAC mode amounts to, once the server runs.
pub struct PacSetup {
    /// The address under which the script is served.
    pub url: String,
    /// The commands that take the fixed proxies away and make the system use
    /// the script.
    pub commands: Vec<ProxyCommand<String>>,
}

/// Sets up PAC mode for a server that was just started on `port`. The start
/// must have been begun on the handle before the server was bound, which
/// stopped the server held until then. The handle then takes the new server
/// over, and the system is switched to the script: the fixed proxies are
/// taken away, then the script is put in place. Where no start was begun, or
/// it was called off since, the new server is told to stop and nothing is
/// set up.
pub fn setup_pac_proxy(
    state: &mut PacServerShutdownHandle,
    shutdown_tx: tokio::sync::oneshot::Sender<()>,
    port: u16,
    platform: Platform,
    services: &Vec<String>,
) -> (setup: Option<PacSetup>)
    ensures
        !final(state).starting,
        match setup {
            Some(done) => {
                &&& old(state).starting
                &&& final(state).shutdown_tx == Some(shutdown_tx)
                &&& done.url@ == pac_url_for(port)
                &&& models(done.commands@) == apply_pac_plan(
                    platform,
                    strings(services@),
                    pac_url_for(port),
                )
            },
            None => !old(state).starting && final(state).shutdown_tx == old(state).shutdown_tx,
        },
{
    match state.finish_start(shutdown_tx) {
        Takeover::Accepted => {
            let url = pac_url(port);
            let commands = apply_pac(platform, services, url.as_str());
            Some(PacSetup { url, commands })
        },
        Takeover::Refused => None,
    }
}

} // verus!
