//! The proxy settings of the operating system: a model of what the system
//! holds, the commands that change it, and how each command is written for
//! its backend (GNOME `gsettings`, macOS `networksetup`, the Windows
//! registry).

pub mod gnome;
pub mod macos;
pub mod windows;

use vstd::prelude::*;
use vstd::string::*;

verus! {

/// The fixed proxies that a system knows.
#[derive(Clone, Copy, Debug, PartialEq, Eq, Structural)]
pub enum ProxyKind {
    Http,
    Https,
    Socks,
}

/// The proxy modes of GNOME.
#[derive(Clone, Copy, Debug, PartialEq, Eq, Structural)]
pub enum GnomeMode {
    Off,
    Manual,
    Auto,
}

/// One change to the proxy settings. `T` is the type of texts: `String` in a
/// command to carry out, `Seq<char>` in its model.
pub enum ProxyCommand<T> {
    /// GNOME: the proxy mode.
    GnomeMode(GnomeMode),
    /// GNOME: the auto-config URL, set or reset.
    GnomeAutoconfigUrl(Option<T>),
    /// GNOME: the host of a fixed proxy, set or reset.
    GnomeHost(ProxyKind, Option<T>),
    /// GNOME: the port of a fixed proxy, set or reset.
    GnomePort(ProxyKind, Option<u16>),
    /// GNOME: the hosts that bypass the proxy, set or reset.
    GnomeIgnoreHosts(Option<T>),
    /// macOS: host and port of a fixed proxy of a network service. Setting
    /// them switches the proxy on.
    MacProxy(T, ProxyKind, T, u16),
    /// macOS: a fixed proxy of a network service, on or off.
    MacProxyState(T, ProxyKind, bool),
    /// macOS: the auto-config URL of a network service. Setting it switches
    /// auto-configuration on.
    MacAutoProxyUrl(T, T),
    /// macOS: auto-configuration of a network service, on or off.
    MacAutoProxyState(T, bool),
    /// macOS: the domains that bypass the proxies of a network service; an
    /// empty text clears them.
    MacBypassDomains(T, T),
    /// Windows: `ProxyEnable`.
    RegistryProxyEnable(bool),
    /// Windows: `ProxyServer` for a host, its HTTP port and its SOCKS port;
    /// or the value deleted.
    RegistryProxyServer(Option<(T, u16, u16)>),
    /// Windows: `ProxyOverride` deleted.
    RegistryDeleteProxyOverride,
    /// Windows: `AutoConfigURL`, set or deleted.
    RegistryAutoConfigUrl(Option<T>),
}

/// The model of an optional text.
pub open spec fn text_model(value: Option<String>) -> Option<Seq<char>> {
    match value {
        Some(s) => Some(s@),
        None => None,
    }
}

impl View for ProxyCommand<String> {
    type V = ProxyCommand<Seq<char>>;

    open spec fn view(&self) -> ProxyCommand<Seq<char>> {
        match self {
            ProxyCommand::GnomeMode(m) => ProxyCommand::GnomeMode(*m),
            ProxyCommand::GnomeAutoconfigUrl(u) => ProxyCommand::GnomeAutoconfigUrl(
                text_model(*u),
            ),
            ProxyCommand::GnomeHost(k, h) => ProxyCommand::GnomeHost(*k, text_model(*h)),
            ProxyCommand::GnomePort(k, p) => ProxyCommand::GnomePort(*k, *p),
            ProxyCommand::GnomeIgnoreHosts(t) => ProxyCommand::GnomeIgnoreHosts(text_model(*t)),
            ProxyCommand::MacProxy(s, k, h, p) => ProxyCommand::MacProxy(s@, *k, h@, *p),
            ProxyCommand::MacProxyState(s, k, b) => ProxyCommand::MacProxyState(s@, *k, *b),
            ProxyCommand::MacAutoProxyUrl(s, u) => ProxyCommand::MacAutoProxyUrl(s@, u@),
            ProxyCommand::MacAutoProxyState(s, b) => ProxyCommand::MacAutoProxyState(s@, *b),
            ProxyCommand::MacBypassDomains(s, t) => ProxyCommand::MacBypassDomains(s@, t@),
            ProxyCommand::RegistryProxyEnable(b) => ProxyCommand::RegistryProxyEnable(*b),
            ProxyCommand::RegistryProxyServer(v) => ProxyCommand::RegistryProxyServer(
                match v {
                    Some((h, http, socks)) => Some((h@, *http, *socks)),
                    None => None,
                },
            ),
            ProxyCommand::RegistryDeleteProxyOverride => ProxyCommand::RegistryDeleteProxyOverride,
            ProxyCommand::RegistryAutoConfigUrl(u) => ProxyCommand::RegistryAutoConfigUrl(
                text_model(*u),
            ),
        }
    }
}

/// The models of a sequence of commands.
pub open spec fn models(commands: Seq<ProxyCommand<String>>) -> Seq<ProxyCommand<Seq<char>>> {
    Seq::new(commands.len(), |i: int| commands[i]@)
}

// ---------------------------------------------------------------------------
// What the system holds
// ---------------------------------------------------------------------------

/// One fixed proxy of a target.
pub struct ProxySlot {
    pub enabled: bool,
    pub host: Option<Seq<char>>,
    pub port: Option<u16>,
}

/// The proxy settings of one target: the system as a whole on Windows and
/// GNOME, one network service on macOS.
pub struct ProxySettings {
    /// Whether the auto-config script decides.
    pub auto_config: bool,
    pub auto_config_url: Option<Seq<char>>,
    pub http: ProxySlot,
    pub https: ProxySlot,
    pub socks: ProxySlot,
    pub bypass: Option<Seq<char>>,
}

impl ProxySlot {
    /// The slot switched on or off.
    pub open spec fn switched(self, on: bool) -> ProxySlot {
        ProxySlot { enabled: on, ..self }
    }

    /// The slot with its host set or removed.
    pub open spec fn with_host(self, host: Option<Seq<char>>) -> ProxySlot {
        ProxySlot { host, ..self }
    }

    /// The slot with its port set or removed.
    pub open spec fn with_port(self, port: Option<u16>) -> ProxySlot {
        ProxySlot { port, ..self }
    }

    /// Whether the slot is switched on and points to the given address.
    pub open spec fn serves(self, host: Seq<char>, port: u16) -> bool {
        self.enabled && self.host == Some(host) && self.port == Some(port)
    }
}

impl ProxySettings {
    /// The fixed proxy of the given kind.
    pub open spec fn slot(self, kind: ProxyKind) -> ProxySlot {
        match kind {
            ProxyKind::Http => self.http,
            ProxyKind::Https => self.https,
            ProxyKind::Socks => self.socks,
        }
    }

    /// The settings with the fixed proxy of the given kind replaced.
    pub open spec fn with_slot(self, kind: ProxyKind, slot: ProxySlot) -> ProxySettings {
        match kind {
            ProxyKind::Http => ProxySettings { http: slot, ..self },
            ProxyKind::Https => ProxySettings { https: slot, ..self },
            ProxyKind::Socks => ProxySettings { socks: slot, ..self },
        }
    }

    /// The settings with every fixed proxy switched on or off.
    pub open spec fn with_all_switched(self, on: bool) -> ProxySettings {
        ProxySettings {
            http: self.http.switched(on),
            https: self.https.switched(on),
            socks: self.socks.switched(on),
            ..self
        }
    }

    /// Manual mode: neither the script nor a fixed proxy is in effect.
    pub open spec fn is_manual(self) -> bool {
        !self.auto_config && !self.http.enabled && !self.https.enabled && !self.socks.enabled
    }

    /// PAC mode: the script at `url` decides, no fixed proxy is in effect.
    pub open spec fn is_pac(self, url: Seq<char>) -> bool {
        self.auto_config && self.auto_config_url == Some(url) && !self.http.enabled
            && !self.https.enabled && !self.socks.enabled
    }

    /// Global mode: the fixed proxies are in effect, HTTP and HTTPS through
    /// the HTTP port, SOCKS through the SOCKS port; the script is not.
    pub open spec fn is_global(self, host: Seq<char>, http_port: u16, socks_port: u16) -> bool {
        !self.auto_config && self.http.serves(host, http_port) && self.https.serves(
            host,
            http_port,
        ) && self.socks.serves(host, socks_port)
    }
}

impl ProxyCommand<Seq<char>> {
    /// The network service that the command addresses; none for a command
    /// that addresses the system as a whole.
    pub open spec fn target(self) -> Option<Seq<char>> {
        match self {
            ProxyCommand::MacProxy(s, _, _, _) => Some(s),
            ProxyCommand::MacProxyState(s, _, _) => Some(s),
            ProxyCommand::MacAutoProxyUrl(s, _) => Some(s),
            ProxyCommand::MacAutoProxyState(s, _) => Some(s),
            ProxyCommand::MacBypassDomains(s, _) => Some(s),
            _ => None,
        }
    }

    /// What the command makes of the settings of its target.
    pub open spec fn effect(self, s: ProxySettings) -> ProxySettings {
        match self {
            ProxyCommand::GnomeMode(m) => ProxySettings {
                auto_config: m == GnomeMode::Auto,
                ..s.with_all_switched(m == GnomeMode::Manual)
            },
            ProxyCommand::GnomeAutoconfigUrl(u) => ProxySettings { auto_config_url: u, ..s },
            ProxyCommand::GnomeHost(k, h) => s.with_slot(k, s.slot(k).with_host(h)),
            ProxyCommand::GnomePort(k, p) => s.with_slot(k, s.slot(k).with_port(p)),
            ProxyCommand::GnomeIgnoreHosts(t) => ProxySettings { bypass: t, ..s },
            ProxyCommand::MacProxy(_, k, h, p) => s.with_slot(
                k,
                ProxySlot { enabled: true, host: Some(h), port: Some(p) },
            ),
            ProxyCommand::MacProxyState(_, k, on) => s.with_slot(k, s.slot(k).switched(on)),
            ProxyCommand::MacAutoProxyUrl(_, u) => ProxySettings {
                auto_config: true,
                auto_config_url: Some(u),
                ..s
            },
            ProxyCommand::MacAutoProxyState(_, on) => ProxySettings { auto_config: on, ..s },
            ProxyCommand::MacBypassDomains(_, t) => ProxySettings {
                bypass: if t.len() == 0 {
                    None
                } else {
                    Some(t)
                },
                ..s
            },
            ProxyCommand::RegistryProxyEnable(on) => s.with_all_switched(on),
            ProxyCommand::RegistryProxyServer(v) => match v {
                Some((h, http, socks)) => ProxySettings {
                    http: s.http.with_host(Some(h)).with_port(Some(http)),
                    https: s.https.with_host(Some(h)).with_port(Some(http)),
                    socks: s.socks.with_host(Some(h)).with_port(Some(socks)),
                    ..s
                },
                None => ProxySettings {
                    http: s.http.with_host(None).with_port(None),
                    https: s.https.with_host(None).with_port(None),
                    socks: s.socks.with_host(None).with_port(None),
                    ..s
                },
            },
            ProxyCommand::RegistryDeleteProxyOverride => ProxySettings { bypass: None, ..s },
            ProxyCommand::RegistryAutoConfigUrl(u) => ProxySettings {
                auto_config: u is Some,
                auto_config_url: u,
                ..s
            },
        }
    }

    /// Whether a failure of the command counts: deleting a registry value
    /// that may be absent is allowed to fail.
    pub open spec fn must_succeed(self) -> bool {
        match self {
            ProxyCommand::RegistryProxyServer(None) => false,
            ProxyCommand::RegistryDeleteProxyOverride => false,
            ProxyCommand::RegistryAutoConfigUrl(None) => false,
            _ => true,
        }
    }
}

/// What a sequence of commands, carried out in order, makes of the settings
/// of one target. Commands for other targets leave them alone.
pub open spec fn effect_on(
    commands: Seq<ProxyCommand<Seq<char>>>,
    target: Option<Seq<char>>,
    s: ProxySettings,
) -> ProxySettings
    decreases commands.len(),
{
    if commands.len() == 0 {
        s
    } else {
        let before = effect_on(commands.drop_last(), target, s);
        if commands.last().target() == target {
            commands.last().effect(before)
        } else {
            before
        }
    }
}

/// Carrying out two sequences one after the other is carrying out their
/// concatenation.
pub proof fn lemma_effect_of_concatenation(
    first: Seq<ProxyCommand<Seq<char>>>,
    second: Seq<ProxyCommand<Seq<char>>>,
    target: Option<Seq<char>>,
    s: ProxySettings,
)
    ensures
        effect_on(first + second, target, s) == effect_on(
            second,
            target,
            effect_on(first, target, s),
        ),
    decreases second.len(),
{
    if second.len() == 0 {
        assert(first + second =~= first);
    } else {
        assert((first + second).drop_last() =~= first + second.drop_last());
        assert((first + second).last() == second.last());
        lemma_effect_of_concatenation(first, second.drop_last(), target, s);
    }
}

impl ProxyCommand<String> {
    /// Whether a failure of the command counts.
    pub fn needs_success(&self) -> (needed: bool)
        ensures
            needed == self@.must_succeed(),
    {
        match self {
            ProxyCommand::RegistryProxyServer(None) => false,
            ProxyCommand::RegistryDeleteProxyOverride => false,
            ProxyCommand::RegistryAutoConfigUrl(None) => false,
            _ => true,
        }
    }
}

/// A switch of the proxy mode that did not go through.
#[derive(Clone, Copy, Debug, PartialEq, Eq, Structural)]
pub struct OsProxyError {
    /// How many commands failed.
    pub failed: usize,
    /// The index of the first command that failed.
    pub first: usize,
}

/// Whether the command at `i` failed: it had to succeed and did not, be it
/// that it was tried in vain or that no result is known for it.
pub open spec fn failed_at(
    commands: Seq<ProxyCommand<Seq<char>>>,
    succeeded: Seq<bool>,
    i: int,
) -> bool {
    0 <= i < commands.len() && commands[i].must_succeed() && !(i < succeeded.len()
        && succeeded[i])
}

/// How many of the first `n` commands failed.
pub open spec fn failures(
    commands: Seq<ProxyCommand<Seq<char>>>,
    succeeded: Seq<bool>,
    n: int,
) -> nat
    decreases n,
{
    if n <= 0 {
        0
    } else {
        failures(commands, succeeded, n - 1) + (if failed_at(commands, succeeded, n - 1) {
            1nat
        } else {
            0nat
        })
    }
}

/// Sums up how the commands of a switch went. Every command is tried,
/// whatever became of the ones before it; the switch as a whole fails if one
/// of them failed.
pub fn check_outcomes(commands: &Vec<ProxyCommand<String>>, succeeded: &Vec<bool>) -> (result:
    Result<(), OsProxyError>)
    ensures
        match result {
            Ok(_) => forall|i: int| 0 <= i < commands.len() ==> !failed_at(
                models(commands@),
                succeeded@,
                i,
            ),
            Err(e) => {
                &&& e.failed == failures(models(commands@), succeeded@, commands.len() as int)
                &&& e.failed > 0
                &&& failed_at(models(commands@), succeeded@, e.first as int)
                &&& forall|i: int| 0 <= i < e.first ==> !failed_at(
                    models(commands@),
                    succeeded@,
                    i,
                )
            },
        },
{
    let mut failed: usize = 0;
    let mut first: usize = 0;
    let mut i: usize = 0;
    while i < commands.len()
        invariant
            i <= commands.len(),
            failed == failures(models(commands@), succeeded@, i as int),
            failed <= i,
            failed > 0 ==> first < i && failed_at(models(commands@), succeeded@, first as int),
            forall|k: int|
                0 <= k < (if failed > 0 {
                    first as int
                } else {
                    i as int
                }) ==> !failed_at(models(commands@), succeeded@, k),
        decreases commands.len() - i,
    {
        let went_well = i < succeeded.len() && succeeded[i];
        if commands[i].needs_success() && !went_well {
            if failed == 0 {
                first = i;
            }
            failed += 1;
        }
        i += 1;
    }
    if failed == 0 {
        Ok(())
    } else {
        Err(OsProxyError { failed, first })
    }
}

} // verus!
