//! What the mode switch makes of the system's proxy settings: the effect of
//! each plan in closed form, and the laws that follow, above all that PAC
//! mode and global mode exclude each other.

use crate::mode_switch::{
    apply_global_plan, apply_manual_plan, apply_pac_plan, set_global_plan, set_pac_plan,
    unset_global_plan, unset_pac_plan,
};
use crate::os_proxy::gnome::ignore_hosts_text;
use crate::os_proxy::macos::{bypass_argument, plan_for, plan_for_all, ServicePlan};
use crate::os_proxy::{
    effect_on, lemma_effect_of_concatenation, GnomeMode, ProxyCommand, ProxyKind, ProxySettings,
    ProxySlot,
};
use crate::platform::Platform;
use vstd::prelude::*;

verus! {

/// Whether `target` is a target of the plans for the platform: the system as
/// a whole on Windows and GNOME, one of the given network services on macOS.
pub open spec fn is_target(
    platform: Platform,
    services: Seq<Seq<char>>,
    target: Option<Seq<char>>,
) -> bool {
    match platform {
        Platform::Windows => target is None,
        Platform::Linux => target is None,
        Platform::MacOs => target is Some && services.contains(target->0),
        Platform::Other => false,
    }
}

/// A fixed proxy switched on at the given address.
pub open spec fn serving(host: Seq<char>, port: u16) -> ProxySlot {
    ProxySlot { enabled: true, host: Some(host), port: Some(port) }
}

/// A fixed proxy without settings.
pub open spec fn vacant() -> ProxySlot {
    ProxySlot { enabled: false, host: None, port: None }
}

/// The settings after the fixed proxies were put in place.
pub open spec fn after_set_global(
    platform: Platform,
    s: ProxySettings,
    host: Seq<char>,
    http_port: u16,
    socks_port: u16,
    bypass: Seq<Seq<char>>,
) -> ProxySettings {
    match platform {
        Platform::Windows => ProxySettings {
            http: serving(host, http_port),
            https: serving(host, http_port),
            socks: serving(host, socks_port),
            ..s
        },
        Platform::MacOs => ProxySettings {
            http: serving(host, http_port),
            https: serving(host, http_port),
            socks: serving(host, socks_port),
            bypass: if bypass.len() > 0 {
                if bypass_argument(bypass).len() == 0 {
                    None
                } else {
                    Some(bypass_argument(bypass))
                }
            } else {
                s.bypass
            },
            ..s
        },
        Platform::Linux => ProxySettings {
            auto_config: false,
            http: serving(host, http_port),
            https: serving(host, http_port),
            socks: serving(host, socks_port),
            bypass: if bypass.len() > 0 {
                Some(ignore_hosts_text(bypass))
            } else {
                s.bypass
            },
            ..s
        },
        Platform::Other => s,
    }
}

/// The settings after the fixed proxies were taken away.
pub open spec fn after_unset_global(platform: Platform, s: ProxySettings) -> ProxySettings {
    match platform {
        Platform::Windows => ProxySettings {
            http: vacant(),
            https: vacant(),
            socks: vacant(),
            bypass: None,
            ..s
        },
        Platform::MacOs => s.with_all_switched(false),
        Platform::Linux => ProxySettings {
            auto_config: false,
            http: vacant(),
            https: vacant(),
            socks: vacant(),
            bypass: None,
            ..s
        },
        Platform::Other => s,
    }
}

/// The settings after the auto-config script was put in place.
pub open spec fn after_set_pac(platform: Platform, s: ProxySettings, url: Seq<char>) -> ProxySettings {
    match platform {
        Platform::Windows => ProxySettings {
            auto_config: true,
            auto_config_url: Some(url),
            ..s.with_all_switched(false)
        },
        Platform::MacOs => ProxySettings { auto_config: true, auto_config_url: Some(url), ..s },
        Platform::Linux => ProxySettings {
            auto_config: true,
            auto_config_url: Some(url),
            ..s.with_all_switched(false)
        },
        Platform::Other => s,
    }
}

/// The settings after the auto-config script was taken away.
pub open spec fn after_unset_pac(platform: Platform, s: ProxySettings) -> ProxySettings {
    match platform {
        Platform::Windows => ProxySettings { auto_config: false, auto_config_url: None, ..s },
        Platform::MacOs => ProxySettings { auto_config: false, ..s },
        Platform::Linux => ProxySettings {
            auto_config: false,
            auto_config_url: None,
            ..s.with_all_switched(false)
        },
        Platform::Other => s,
    }
}

proof fn lemma_effect_push(
    commands: Seq<ProxyCommand<Seq<char>>>,
    c: ProxyCommand<Seq<char>>,
    target: Option<Seq<char>>,
    s: ProxySettings,
)
    ensures
        effect_on(commands.push(c), target, s) == (if c.target() == target {
            c.effect(effect_on(commands, target, s))
        } else {
            effect_on(commands, target, s)
        }),
{
    assert(commands.push(c).drop_last() =~= commands);
}

proof fn lemma_effect_of_nothing(target: Option<Seq<char>>, s: ProxySettings)
    ensures
        effect_on(Seq::empty(), target, s) == s,
{
}

/// The commands of a plan for one service, seen from that service.
pub open spec fn after_service_plan(plan: ServicePlan, s: ProxySettings) -> ProxySettings {
    match plan {
        ServicePlan::SetGlobal { host, http_port, socks_port, bypass } => after_set_global(
            Platform::MacOs,
            s,
            host,
            http_port,
            socks_port,
            bypass,
        ),
        ServicePlan::UnsetGlobal { bypass } => ProxySettings {
            bypass: if bypass.len() > 0 {
                None
            } else {
                s.bypass
            },
            ..s.with_all_switched(false)
        },
        ServicePlan::SetPac { pac_url } => after_set_pac(Platform::MacOs, s, pac_url),
        ServicePlan::UnsetPac => after_unset_pac(Platform::MacOs, s),
    }
}

proof fn lemma_service_plan_effect(
    plan: ServicePlan,
    service: Seq<char>,
    target: Seq<char>,
    s: ProxySettings,
)
    ensures
        effect_on(plan_for(plan, service), Some(target), s) == (if service == target {
            after_service_plan(plan, s)
        } else {
            s
        }),
{
    let t = Some(target);
    let e = Seq::<ProxyCommand<Seq<char>>>::empty();
    lemma_effect_of_nothing(t, s);
    match plan {
        ServicePlan::SetGlobal { host, http_port, socks_port, bypass } => {
            let c1 = ProxyCommand::MacProxy(service, ProxyKind::Http, host, http_port);
            let c2 = ProxyCommand::MacProxy(service, ProxyKind::Https, host, http_port);
            let c3 = ProxyCommand::MacProxy(service, ProxyKind::Socks, host, socks_port);
            let c4 = ProxyCommand::MacProxyState(service, ProxyKind::Http, true);
            let c5 = ProxyCommand::MacProxyState(service, ProxyKind::Https, true);
            let c6 = ProxyCommand::MacProxyState(service, ProxyKind::Socks, true);
            lemma_effect_push(e, c1, t, s);
            lemma_effect_push(e.push(c1), c2, t, s);
            lemma_effect_push(e.push(c1).push(c2), c3, t, s);
            lemma_effect_push(e.push(c1).push(c2).push(c3), c4, t, s);
            lemma_effect_push(e.push(c1).push(c2).push(c3).push(c4), c5, t, s);
            lemma_effect_push(e.push(c1).push(c2).push(c3).push(c4).push(c5), c6, t, s);
            let head = e.push(c1).push(c2).push(c3).push(c4).push(c5).push(c6);
            if bypass.len() > 0 {
                let c7 = ProxyCommand::MacBypassDomains(service, bypass_argument(bypass));
                lemma_effect_push(e, c7, t, effect_on(head, t, s));
                lemma_effect_of_nothing(t, effect_on(head, t, s));
                lemma_effect_of_concatenation(head, e.push(c7), t, s);
                assert(plan_for(plan, service) =~= head + e.push(c7));
            } else {
                lemma_effect_of_concatenation(head, e, t, s);
                lemma_effect_of_nothing(t, effect_on(head, t, s));
                assert(plan_for(plan, service) =~= head + e);
            }
        },
        ServicePlan::UnsetGlobal { bypass } => {
            let c1 = ProxyCommand::MacProxyState(service, ProxyKind::Http, false);
            let c2 = ProxyCommand::MacProxyState(service, ProxyKind::Https, false);
            let c3 = ProxyCommand::MacProxyState(service, ProxyKind::Socks, false);
            lemma_effect_push(e, c1, t, s);
            lemma_effect_push(e.push(c1), c2, t, s);
            lemma_effect_push(e.push(c1).push(c2), c3, t, s);
            let head = e.push(c1).push(c2).push(c3);
            if bypass.len() > 0 {
                let c4 = ProxyCommand::MacBypassDomains(service, Seq::empty());
                lemma_effect_push(e, c4, t, effect_on(head, t, s));
                lemma_effect_of_nothing(t, effect_on(head, t, s));
                lemma_effect_of_concatenation(head, e.push(c4), t, s);
                assert(plan_for(plan, service) =~= head + e.push(c4));
            } else {
                lemma_effect_of_concatenation(head, e, t, s);
                lemma_effect_of_nothing(t, effect_on(head, t, s));
                assert(plan_for(plan, service) =~= head + e);
            }
        },
        ServicePlan::SetPac { pac_url } => {
            let c1 = ProxyCommand::MacAutoProxyUrl(service, pac_url);
            let c2 = ProxyCommand::MacAutoProxyState(service, true);
            lemma_effect_push(e, c1, t, s);
            lemma_effect_push(e.push(c1), c2, t, s);
            assert(plan_for(plan, service) =~= e.push(c1).push(c2));
        },
        ServicePlan::UnsetPac => {
            let c1 = ProxyCommand::MacAutoProxyState(service, false);
            lemma_effect_push(e, c1, t, s);
            assert(plan_for(plan, service) =~= e.push(c1));
        },
    }
}

proof fn lemma_service_plan_idempotent(plan: ServicePlan, s: ProxySettings)
    ensures
        after_service_plan(plan, after_service_plan(plan, s)) == after_service_plan(plan, s),
{
}

proof fn lemma_all_services_effect(
    plan: ServicePlan,
    services: Seq<Seq<char>>,
    target: Seq<char>,
    s: ProxySettings,
)
    ensures
        effect_on(plan_for_all(plan, services), Some(target), s) == (if services.contains(target) {
            after_service_plan(plan, s)
        } else {
            s
        }),
    decreases services.len(),
{
    if services.len() > 0 {
        let rest = services.drop_last();
        let last = services.last();
        lemma_all_services_effect(plan, rest, target, s);
        let mid = effect_on(plan_for_all(plan, rest), Some(target), s);
        lemma_effect_of_concatenation(
            plan_for_all(plan, rest),
            plan_for(plan, last),
            Some(target),
            s,
        );
        lemma_service_plan_effect(plan, last, target, mid);
        lemma_service_plan_idempotent(plan, s);
        if rest.contains(target) {
            let i = choose|i: int| 0 <= i < rest.len() && rest[i] == target;
            assert(services[i] == target);
        }
        if last == target {
            assert(services[services.len() - 1] == target);
        }
        if services.contains(target) && last != target {
            let i = choose|i: int| 0 <= i < services.len() && services[i] == target;
            assert(rest[i] == target);
        }
    }
}

/// Putting the fixed proxies in place has the stated effect on every target.
pub proof fn lemma_set_global_effect(
    platform: Platform,
    services: Seq<Seq<char>>,
    target: Option<Seq<char>>,
    s: ProxySettings,
    host: Seq<char>,
    http_port: u16,
    socks_port: u16,
    bypass: Seq<Seq<char>>,
)
    requires
        is_target(platform, services, target),
    ensures
        effect_on(
            set_global_plan(platform, services, host, http_port, socks_port, bypass),
            target,
            s,
        ) == after_set_global(platform, s, host, http_port, socks_port, bypass),
{
    let e = Seq::<ProxyCommand<Seq<char>>>::empty();
    lemma_effect_of_nothing(target, s);
    match platform {
        Platform::Windows => {
            let c1 = ProxyCommand::RegistryProxyEnable(true);
            let c2 = ProxyCommand::RegistryProxyServer(Some((host, http_port, socks_port)));
            lemma_effect_push(e, c1, target, s);
            lemma_effect_push(e.push(c1), c2, target, s);
            assert(crate::os_proxy::windows::set_global_plan(host, http_port, socks_port) =~= e.push(
                c1,
            ).push(c2));
        },
        Platform::MacOs => {
            lemma_all_services_effect(
                ServicePlan::SetGlobal { host, http_port, socks_port, bypass },
                services,
                target->0,
                s,
            );
        },
        Platform::Linux => {
            let c1 = ProxyCommand::GnomeMode(GnomeMode::Manual);
            let c2 = ProxyCommand::GnomeHost(ProxyKind::Http, Some(host));
            let c3 = ProxyCommand::GnomePort(ProxyKind::Http, Some(http_port));
            let c4 = ProxyCommand::GnomeHost(ProxyKind::Https, Some(host));
            let c5 = ProxyCommand::GnomePort(ProxyKind::Https, Some(http_port));
            let c6 = ProxyCommand::GnomeHost(ProxyKind::Socks, Some(host));
            let c7 = ProxyCommand::GnomePort(ProxyKind::Socks, Some(socks_port));
            lemma_effect_push(e, c1, target, s);
            lemma_effect_push(e.push(c1), c2, target, s);
            lemma_effect_push(e.push(c1).push(c2), c3, target, s);
            lemma_effect_push(e.push(c1).push(c2).push(c3), c4, target, s);
            lemma_effect_push(e.push(c1).push(c2).push(c3).push(c4), c5, target, s);
            lemma_effect_push(e.push(c1).push(c2).push(c3).push(c4).push(c5), c6, target, s);
            lemma_effect_push(
                e.push(c1).push(c2).push(c3).push(c4).push(c5).push(c6),
                c7,
                target,
                s,
            );
            let head = e.push(c1).push(c2).push(c3).push(c4).push(c5).push(c6).push(c7);
            let plan = crate::os_proxy::gnome::set_global_plan(host, http_port, socks_port, bypass);
            if bypass.len() > 0 {
                let c8 = ProxyCommand::GnomeIgnoreHosts(Some(ignore_hosts_text(bypass)));
                lemma_effect_push(e, c8, target, effect_on(head, target, s));
                lemma_effect_of_nothing(target, effect_on(head, target, s));
                lemma_effect_of_concatenation(head, e.push(c8), target, s);
                assert(plan =~= head + e.push(c8));
            } else {
                lemma_effect_of_concatenation(head, e, target, s);
                lemma_effect_of_nothing(target, effect_on(head, target, s));
                assert(plan =~= head + e);
            }
        },
        Platform::Other => {},
    }
}

/// Taking the fixed proxies away has the stated effect on every target.
pub proof fn lemma_unset_global_effect(
    platform: Platform,
    services: Seq<Seq<char>>,
    target: Option<Seq<char>>,
    s: ProxySettings,
)
    requires
        is_target(platform, services, target),
    ensures
        effect_on(unset_global_plan(platform, services), target, s) == after_unset_global(
            platform,
            s,
        ),
{
    let e = Seq::<ProxyCommand<Seq<char>>>::empty();
    lemma_effect_of_nothing(target, s);
    match platform {
        Platform::Windows => {
            let c1 = ProxyCommand::RegistryProxyEnable(false);
            let c2 = ProxyCommand::RegistryProxyServer(None);
            let c3 = ProxyCommand::RegistryDeleteProxyOverride;
            lemma_effect_push(e, c1, target, s);
            lemma_effect_push(e.push(c1), c2, target, s);
            lemma_effect_push(e.push(c1).push(c2), c3, target, s);
            assert(crate::os_proxy::windows::unset_global_plan() =~= e.push(c1).push(c2).push(c3));
        },
        Platform::MacOs => {
            lemma_all_services_effect(
                ServicePlan::UnsetGlobal { bypass: Seq::empty() },
                services,
                target->0,
                s,
            );
        },
        Platform::Linux => {
            let c1 = ProxyCommand::GnomeMode(GnomeMode::Off);
            let c2 = ProxyCommand::GnomeHost(ProxyKind::Http, None);
            let c3 = ProxyCommand::GnomePort(ProxyKind::Http, None);
            let c4 = ProxyCommand::GnomeHost(ProxyKind::Https, None);
            let c5 = ProxyCommand::GnomePort(ProxyKind::Https, None);
            let c6 = ProxyCommand::GnomeHost(ProxyKind::Socks, None);
            let c7 = ProxyCommand::GnomePort(ProxyKind::Socks, None);
            let c8 = ProxyCommand::GnomeIgnoreHosts(None);
            lemma_effect_push(e, c1, target, s);
            lemma_effect_push(e.push(c1), c2, target, s);
            lemma_effect_push(e.push(c1).push(c2), c3, target, s);
            lemma_effect_push(e.push(c1).push(c2).push(c3), c4, target, s);
            lemma_effect_push(e.push(c1).push(c2).push(c3).push(c4), c5, target, s);
            lemma_effect_push(e.push(c1).push(c2).push(c3).push(c4).push(c5), c6, target, s);
            lemma_effect_push(
                e.push(c1).push(c2).push(c3).push(c4).push(c5).push(c6),
                c7,
                target,
                s,
            );
            lemma_effect_push(
                e.push(c1).push(c2).push(c3).push(c4).push(c5).push(c6).push(c7),
                c8,
                target,
                s,
            );
            assert(crate::os_proxy::gnome::unset_global_plan() =~= e.push(c1).push(c2).push(
                c3,
            ).push(c4).push(c5).push(c6).push(c7).push(c8));
        },
        Platform::Other => {},
    }
}

/// Putting the auto-config script in place has the stated effect on every
/// target.
pub proof fn lemma_set_pac_effect(
    platform: Platform,
    services: Seq<Seq<char>>,
    target: Option<Seq<char>>,
    s: ProxySettings,
    url: Seq<char>,
)
    requires
        is_target(platform, services, target),
    ensures
        effect_on(set_pac_plan(platform, services, url), target, s) == after_set_pac(
            platform,
            s,
            url,
        ),
{
    let e = Seq::<ProxyCommand<Seq<char>>>::empty();
    lemma_effect_of_nothing(target, s);
    match platform {
        Platform::Windows => {
            let c1 = ProxyCommand::RegistryAutoConfigUrl(Some(url));
            let c2 = ProxyCommand::RegistryProxyEnable(false);
            lemma_effect_push(e, c1, target, s);
            lemma_effect_push(e.push(c1), c2, target, s);
            assert(crate::os_proxy::windows::set_pac_plan(url) =~= e.push(c1).push(c2));
        },
        Platform::MacOs => {
            lemma_all_services_effect(
                ServicePlan::SetPac { pac_url: url },
                services,
                target->0,
                s,
            );
        },
        Platform::Linux => {
            let c1 = ProxyCommand::GnomeMode(GnomeMode::Auto);
            let c2 = ProxyCommand::GnomeAutoconfigUrl(Some(url));
            lemma_effect_push(e, c1, target, s);
            lemma_effect_push(e.push(c1), c2, target, s);
            assert(crate::os_proxy::gnome::set_pac_plan(url) =~= e.push(c1).push(c2));
        },
        Platform::Other => {},
    }
}

/// Taking the auto-config script away has the stated effect on every target.
pub proof fn lemma_unset_pac_effect(
    platform: Platform,
    services: Seq<Seq<char>>,
    target: Option<Seq<char>>,
    s: ProxySettings,
)
    requires
        is_target(platform, services, target),
    ensures
        effect_on(unset_pac_plan(platform, services), target, s) == after_unset_pac(platform, s),
{
    let e = Seq::<ProxyCommand<Seq<char>>>::empty();
    lemma_effect_of_nothing(target, s);
    match platform {
        Platform::Windows => {
            let c1 = ProxyCommand::RegistryAutoConfigUrl(None);
            lemma_effect_push(e, c1, target, s);
            assert(crate::os_proxy::windows::unset_pac_plan() =~= e.push(c1));
        },
        Platform::MacOs => {
            lemma_all_services_effect(ServicePlan::UnsetPac, services, target->0, s);
        },
        Platform::Linux => {
            let c1 = ProxyCommand::GnomeMode(GnomeMode::Off);
            let c2 = ProxyCommand::GnomeAutoconfigUrl(None);
            lemma_effect_push(e, c1, target, s);
            lemma_effect_push(e.push(c1), c2, target, s);
            assert(crate::os_proxy::gnome::unset_pac_plan() =~= e.push(c1).push(c2));
        },
        Platform::Other => {},
    }
}

/// Whatever the settings were, switching to manual mode leaves neither the
/// script nor a fixed proxy in effect.
pub proof fn lemma_apply_manual_gives_manual(
    platform: Platform,
    services: Seq<Seq<char>>,
    target: Option<Seq<char>>,
    s: ProxySettings,
)
    requires
        is_target(platform, services, target),
    ensures
        effect_on(apply_manual_plan(platform, services), target, s).is_manual(),
        platform != Platform::MacOs ==> effect_on(
            apply_manual_plan(platform, services),
            target,
            s,
        ).auto_config_url is None,
{
    let first = unset_global_plan(platform, services);
    let second = unset_pac_plan(platform, services);
    lemma_effect_of_concatenation(first, second, target, s);
    lemma_unset_global_effect(platform, services, target, s);
    lemma_unset_pac_effect(platform, services, target, effect_on(first, target, s));
}

/// Whatever the settings were, switching to PAC mode leaves the script in
/// effect and no fixed proxy.
pub proof fn lemma_apply_pac_gives_pac(
    platform: Platform,
    services: Seq<Seq<char>>,
    target: Option<Seq<char>>,
    s: ProxySettings,
    url: Seq<char>,
)
    requires
        is_target(platform, services, target),
    ensures
        effect_on(apply_pac_plan(platform, services, url), target, s).is_pac(url),
{
    let first = unset_global_plan(platform, services);
    let second = set_pac_plan(platform, services, url);
    lemma_effect_of_concatenation(first, second, target, s);
    lemma_unset_global_effect(platform, services, target, s);
    lemma_set_pac_effect(platform, services, target, effect_on(first, target, s), url);
}

/// Whatever the settings were, switching to global mode leaves the fixed
/// proxies in effect and the script not; on Windows and GNOME the script's
/// address is gone as well.
pub proof fn lemma_apply_global_gives_global(
    platform: Platform,
    services: Seq<Seq<char>>,
    target: Option<Seq<char>>,
    s: ProxySettings,
    host: Seq<char>,
    http_port: u16,
    socks_port: u16,
    bypass: Seq<Seq<char>>,
)
    requires
        is_target(platform, services, target),
    ensures
        effect_on(
            apply_global_plan(platform, services, host, http_port, socks_port, bypass),
            target,
            s,
        ).is_global(host, http_port, socks_port),
        platform != Platform::MacOs ==> effect_on(
            apply_global_plan(platform, services, host, http_port, socks_port, bypass),
            target,
            s,
        ).auto_config_url is None,
{
    let first = unset_pac_plan(platform, services);
    let second = set_global_plan(platform, services, host, http_port, socks_port, bypass);
    lemma_effect_of_concatenation(first, second, target, s);
    lemma_unset_pac_effect(platform, services, target, s);
    lemma_set_global_effect(
        platform,
        services,
        target,
        effect_on(first, target, s),
        host,
        http_port,
        socks_port,
        bypass,
    );
}

/// PAC mode and global mode exclude each other: after a switch to PAC mode
/// and then to global mode, only the fixed proxies are in effect; after a
/// further switch to manual mode, nothing is. The plans are those that
/// `setup_pac_proxy`, `setup_global_proxy` and `setup_manual_proxy` hand out.
pub proof fn lemma_modes_exclude_each_other(
    platform: Platform,
    services: Seq<Seq<char>>,
    target: Option<Seq<char>>,
    s: ProxySettings,
    url: Seq<char>,
    host: Seq<char>,
    http_port: u16,
    socks_port: u16,
    bypass: Seq<Seq<char>>,
)
    requires
        is_target(platform, services, target),
    ensures
        ({
            let pac = effect_on(apply_pac_plan(platform, services, url), target, s);
            let global = effect_on(
                apply_global_plan(platform, services, host, http_port, socks_port, bypass),
                target,
                pac,
            );
            let manual = effect_on(apply_manual_plan(platform, services), target, global);
            &&& pac.is_pac(url)
            &&& global.is_global(host, http_port, socks_port)
            &&& !global.auto_config
            &&& platform != Platform::MacOs ==> global.auto_config_url is None
            &&& manual.is_manual()
        }),
{
    let pac = effect_on(apply_pac_plan(platform, services, url), target, s);
    lemma_apply_pac_gives_pac(platform, services, target, s, url);
    lemma_apply_global_gives_global(
        platform,
        services,
        target,
        pac,
        host,
        http_port,
        socks_port,
        bypass,
    );
    let global = effect_on(
        apply_global_plan(platform, services, host, http_port, socks_port, bypass),
        target,
        pac,
    );
    lemma_apply_manual_gives_manual(platform, services, target, global);
}

/// Each switch is idempotent: carried out twice, it leaves the settings as
/// carried out once.
pub proof fn lemma_switches_are_idempotent(
    platform: Platform,
    services: Seq<Seq<char>>,
    target: Option<Seq<char>>,
    s: ProxySettings,
    url: Seq<char>,
    host: Seq<char>,
    http_port: u16,
    socks_port: u16,
    bypass: Seq<Seq<char>>,
)
    requires
        is_target(platform, services, target),
    ensures
        ({
            let plan = apply_manual_plan(platform, services);
            effect_on(plan, target, effect_on(plan, target, s)) == effect_on(plan, target, s)
        }),
        ({
            let plan = apply_pac_plan(platform, services, url);
            effect_on(plan, target, effect_on(plan, target, s)) == effect_on(plan, target, s)
        }),
        ({
            let plan = apply_global_plan(platform, services, host, http_port, socks_port, bypass);
            effect_on(plan, target, effect_on(plan, target, s)) == effect_on(plan, target, s)
        }),
{
    let ug = unset_global_plan(platform, services);
    let up = unset_pac_plan(platform, services);
    let sp = set_pac_plan(platform, services, url);
    let sg = set_global_plan(platform, services, host, http_port, socks_port, bypass);
    // manual
    lemma_effect_of_concatenation(ug, up, target, s);
    lemma_unset_global_effect(platform, services, target, s);
    lemma_unset_pac_effect(platform, services, target, effect_on(ug, target, s));
    let manual_once = effect_on(ug + up, target, s);
    lemma_effect_of_concatenation(ug, up, target, manual_once);
    lemma_unset_global_effect(platform, services, target, manual_once);
    lemma_unset_pac_effect(platform, services, target, effect_on(ug, target, manual_once));
    // pac
    lemma_effect_of_concatenation(ug, sp, target, s);
    lemma_set_pac_effect(platform, services, target, effect_on(ug, target, s), url);
    let pac_once = effect_on(ug + sp, target, s);
    lemma_effect_of_concatenation(ug, sp, target, pac_once);
    lemma_unset_global_effect(platform, services, target, pac_once);
    lemma_set_pac_effect(platform, services, target, effect_on(ug, target, pac_once), url);
    // global
    lemma_effect_of_concatenation(up, sg, target, s);
    lemma_unset_pac_effect(platform, services, target, s);
    lemma_set_global_effect(
        platform,
        services,
        target,
        effect_on(up, target, s),
        host,
        http_port,
        socks_port,
        bypass,
    );
    let global_once = effect_on(up + sg, target, s);
    lemma_effect_of_concatenation(up, sg, target, global_once);
    lemma_unset_pac_effect(platform, services, target, global_once);
    lemma_set_global_effect(
        platform,
        services,
        target,
        effect_on(up, target, global_once),
        host,
        http_port,
        socks_port,
        bypass,
    );
}

} // verus!
