//! The macOS backend: the proxies of each network service, changed with
//! `networksetup`.

use crate::os_proxy::{models, ProxyCommand, ProxyKind};
use crate::text::{
    begins_with, chars_of, decimal, decimal_chars, join_strings, joined, lines, lines_of,
    starts_with_char, string_of, strings, texts,
};
use vstd::prelude::*;
use vstd::string::*;

verus! {

/// The `networksetup` option that sets host and port of a fixed proxy.
pub open spec fn proxy_option(kind: ProxyKind) -> Seq<char> {
    match kind {
        ProxyKind::Http => "-setwebproxy"@,
        ProxyKind::Https => "-setsecurewebproxy"@,
        ProxyKind::Socks => "-setsocksfirewallproxy"@,
    }
}

/// The `networksetup` option that switches a fixed proxy.
pub open spec fn state_option(kind: ProxyKind) -> Seq<char> {
    match kind {
        ProxyKind::Http => "-setwebproxystate"@,
        ProxyKind::Https => "-setsecurewebproxystate"@,
        ProxyKind::Socks => "-setsocksfirewallproxystate"@,
    }
}

/// The word for a switch position.
pub open spec fn on_off(on: bool) -> Seq<char> {
    if on {
        "on"@
    } else {
        "off"@
    }
}

/// The program and arguments that carry out a macOS command; none for a
/// command of another backend.
pub open spec fn mac_line(command: ProxyCommand<Seq<char>>) -> Option<Seq<Seq<char>>> {
    match command {
        ProxyCommand::MacProxy(service, kind, host, port) => Some(
            seq!["networksetup"@, proxy_option(kind), service, host, decimal(port as nat)],
        ),
        ProxyCommand::MacProxyState(service, kind, on) => Some(
            seq!["networksetup"@, state_option(kind), service, on_off(on)],
        ),
        ProxyCommand::MacAutoProxyUrl(service, url) => Some(
            seq!["networksetup"@, "-setautoproxyurl"@, service, url],
        ),
        ProxyCommand::MacAutoProxyState(service, on) => Some(
            seq!["networksetup"@, "-setautoproxystate"@, service, on_off(on)],
        ),
        ProxyCommand::MacBypassDomains(service, domains) => Some(
            seq!["networksetup"@, "-setproxybypassdomains"@, service, domains],
        ),
        _ => None,
    }
}

fn switch_word(on: bool) -> (word: &'static str)
    ensures
        word@ == on_off(on),
{
    if on {
        "on"
    } else {
        "off"
    }
}

/// Writes a macOS command as program and arguments.
pub fn mac_arguments(command: &ProxyCommand<String>) -> (argv: Option<Vec<String>>)
    ensures
        match argv {
            Some(a) => mac_line(command@) == Some(strings(a@)),
            None => mac_line(command@) is None,
        },
{
    let mut argv: Vec<String> = Vec::new();
    argv.push("networksetup".to_owned());
    match command {
        ProxyCommand::MacProxy(service, kind, host, port) => {
            let option = match kind {
                ProxyKind::Http => "-setwebproxy",
                ProxyKind::Https => "-setsecurewebproxy",
                ProxyKind::Socks => "-setsocksfirewallproxy",
            };
            argv.push(option.to_owned());
            argv.push(service.clone());
            argv.push(host.clone());
            argv.push(string_of(&decimal_chars(*port as u64)));
            assert(strings(argv@) =~= mac_line(command@)->0);
            Some(argv)
        },
        ProxyCommand::MacProxyState(service, kind, on) => {
            let option = match kind {
                ProxyKind::Http => "-setwebproxystate",
                ProxyKind::Https => "-setsecurewebproxystate",
                ProxyKind::Socks => "-setsocksfirewallproxystate",
            };
            argv.push(option.to_owned());
            argv.push(service.clone());
            argv.push(switch_word(*on).to_owned());
            assert(strings(argv@) =~= mac_line(command@)->0);
            Some(argv)
        },
        ProxyCommand::MacAutoProxyUrl(service, url) => {
            argv.push("-setautoproxyurl".to_owned());
            argv.push(service.clone());
            argv.push(url.clone());
            assert(strings(argv@) =~= mac_line(command@)->0);
            Some(argv)
        },
        ProxyCommand::MacAutoProxyState(service, on) => {
            argv.push("-setautoproxystate".to_owned());
            argv.push(service.clone());
            argv.push(switch_word(*on).to_owned());
            assert(strings(argv@) =~= mac_line(command@)->0);
            Some(argv)
        },
        ProxyCommand::MacBypassDomains(service, domains) => {
            argv.push("-setproxybypassdomains".to_owned());
            argv.push(service.clone());
            argv.push(domains.clone());
            assert(strings(argv@) =~= mac_line(command@)->0);
            Some(argv)
        },
        _ => None,
    }
}

/// The invocation that lists the network services.
pub open spec fn list_services_line() -> Seq<Seq<char>> {
    seq!["networksetup"@, "-listallnetworkservices"@]
}

pub fn list_services_arguments() -> (argv: Vec<String>)
    ensures
        strings(argv@) == list_services_line(),
{
    let mut argv: Vec<String> = Vec::new();
    argv.push("networksetup".to_owned());
    argv.push("-listallnetworkservices".to_owned());
    assert(strings(argv@) =~= list_services_line());
    argv
}

/// The services named in a listing: its lines, but for those that begin with
/// an asterisk, which marks a disabled service.
pub open spec fn services_in(listing: Seq<char>) -> Seq<Seq<char>> {
    lines_of(listing).filter(|l: Seq<char>| !begins_with(l, '*'))
}

/// Reads the network services out of the listing.
pub fn network_services(listing: &str) -> (services: Vec<String>)
    ensures
        strings(services@) == services_in(listing@),
{
    let all = lines(&chars_of(listing));
    let ghost keep = |l: Seq<char>| !begins_with(l, '*');
    let mut services: Vec<String> = Vec::new();
    let mut i: usize = 0;
    proof {
        reveal(Seq::filter);
        assert(strings(services@) =~= texts(all@).take(0).filter(keep));
    }
    while i < all.len()
        invariant
            i <= all.len(),
            keep == (|l: Seq<char>| !begins_with(l, '*')),
            strings(services@) == texts(all@).take(i as int).filter(keep),
        decreases all.len() - i,
    {
        let ghost before = strings(services@);
        proof {
            assert(texts(all@).take(i + 1) =~= texts(all@).take(i as int).push(all@[i as int]@));
            texts(all@).take(i as int).lemma_filter_push(all@[i as int]@, keep);
        }
        if !starts_with_char(&all[i], '*') {
            services.push(string_of(&all[i]));
            assert(strings(services@) =~= before.push(all@[i as int]@));
        }
        i += 1;
    }
    assert(texts(all@).take(all.len() as int) =~= texts(all@));
    services
}

/// The bypass domains as one argument: separated by commas.
pub open spec fn bypass_argument(domains: Seq<Seq<char>>) -> Seq<char> {
    joined(domains, ","@)
}

/// The commands that put the fixed proxies of one service in place: the three
/// addresses, the three switches, then the bypass domains where there are
/// any.
pub open spec fn set_global_for(
    service: Seq<char>,
    host: Seq<char>,
    http_port: u16,
    socks_port: u16,
    bypass: Seq<Seq<char>>,
) -> Seq<ProxyCommand<Seq<char>>> {
    seq![
        ProxyCommand::MacProxy(service, ProxyKind::Http, host, http_port),
        ProxyCommand::MacProxy(service, ProxyKind::Https, host, http_port),
        ProxyCommand::MacProxy(service, ProxyKind::Socks, host, socks_port),
        ProxyCommand::MacProxyState(service, ProxyKind::Http, true),
        ProxyCommand::MacProxyState(service, ProxyKind::Https, true),
        ProxyCommand::MacProxyState(service, ProxyKind::Socks, true),
    ] + (if bypass.len() > 0 {
        seq![ProxyCommand::MacBypassDomains(service, bypass_argument(bypass))]
    } else {
        Seq::empty()
    })
}

/// The commands that switch the fixed proxies of one service off, and clear
/// its bypass domains where a list is given.
pub open spec fn unset_global_for(service: Seq<char>, bypass: Seq<Seq<char>>) -> Seq<
    ProxyCommand<Seq<char>>,
> {
    seq![
        ProxyCommand::MacProxyState(service, ProxyKind::Http, false),
        ProxyCommand::MacProxyState(service, ProxyKind::Https, false),
        ProxyCommand::MacProxyState(service, ProxyKind::Socks, false),
    ] + (if bypass.len() > 0 {
        seq![ProxyCommand::MacBypassDomains(service, Seq::empty())]
    } else {
        Seq::empty()
    })
}

/// The commands that put the auto-config script of one service in place.
pub open spec fn set_pac_for(service: Seq<char>, pac_url: Seq<char>) -> Seq<
    ProxyCommand<Seq<char>>,
> {
    seq![
        ProxyCommand::MacAutoProxyUrl(service, pac_url),
        ProxyCommand::MacAutoProxyState(service, true),
    ]
}

/// The command that switches the auto-config script of one service off.
pub open spec fn unset_pac_for(service: Seq<char>) -> Seq<ProxyCommand<Seq<char>>> {
    seq![ProxyCommand::MacAutoProxyState(service, false)]
}

/// What a plan is to do for each service.
pub enum ServicePlan {
    SetGlobal { host: Seq<char>, http_port: u16, socks_port: u16, bypass: Seq<Seq<char>> },
    UnsetGlobal { bypass: Seq<Seq<char>> },
    SetPac { pac_url: Seq<char> },
    UnsetPac,
}

/// The commands of a plan for one service.
pub open spec fn plan_for(plan: ServicePlan, service: Seq<char>) -> Seq<ProxyCommand<Seq<char>>> {
    match plan {
        ServicePlan::SetGlobal { host, http_port, socks_port, bypass } => set_global_for(
            service,
            host,
            http_port,
            socks_port,
            bypass,
        ),
        ServicePlan::UnsetGlobal { bypass } => unset_global_for(service, bypass),
        ServicePlan::SetPac { pac_url } => set_pac_for(service, pac_url),
        ServicePlan::UnsetPac => unset_pac_for(service),
    }
}

/// The commands of a plan for every service, service by service.
pub open spec fn plan_for_all(plan: ServicePlan, services: Seq<Seq<char>>) -> Seq<
    ProxyCommand<Seq<char>>,
>
    decreases services.len(),
{
    if services.len() == 0 {
        Seq::empty()
    } else {
        plan_for_all(plan, services.drop_last()) + plan_for(plan, services.last())
    }
}

/// Sets the global proxy on every network service.
pub fn set_global_proxy_macos(
    services: &Vec<String>,
    host: &str,
    http_port: u16,
    socks_port: u16,
    bypass_domains: &Vec<String>,
) -> (commands: Vec<ProxyCommand<String>>)
    ensures
        models(commands@) == plan_for_all(
            ServicePlan::SetGlobal {
                host: host@,
                http_port,
                socks_port,
                bypass: strings(bypass_domains@),
            },
            strings(services@),
        ),
{
    let ghost plan = ServicePlan::SetGlobal {
        host: host@,
        http_port,
        socks_port,
        bypass: strings(bypass_domains@),
    };
    let mut commands: Vec<ProxyCommand<String>> = Vec::new();
    let mut i: usize = 0;
    assert(models(commands@) =~= plan_for_all(plan, strings(services@).take(0)));
    while i < services.len()
        invariant
            i <= services.len(),
            plan == (ServicePlan::SetGlobal {
                host: host@,
                http_port,
                socks_port,
                bypass: strings(bypass_domains@),
            }),
            models(commands@) == plan_for_all(plan, strings(services@).take(i as int)),
        decreases services.len() - i,
    {
        let ghost before = models(commands@);
        let ghost name = services@[i as int]@;
        proof {
            assert(strings(services@).take(i + 1).drop_last() =~= strings(services@).take(
                i as int,
            ));
            assert(strings(services@).take(i + 1).last() == name);
        }
        let service = &services[i];
        commands.push(
            ProxyCommand::MacProxy(service.clone(), ProxyKind::Http, host.to_owned(), http_port),
        );
        commands.push(
            ProxyCommand::MacProxy(service.clone(), ProxyKind::Https, host.to_owned(), http_port),
        );
        commands.push(
            ProxyCommand::MacProxy(service.clone(), ProxyKind::Socks, host.to_owned(), socks_port),
        );
        commands.push(ProxyCommand::MacProxyState(service.clone(), ProxyKind::Http, true));
        commands.push(ProxyCommand::MacProxyState(service.clone(), ProxyKind::Https, true));
        commands.push(ProxyCommand::MacProxyState(service.clone(), ProxyKind::Socks, true));
        if bypass_domains.len() > 0 {
            commands.push(
                ProxyCommand::MacBypassDomains(
                    service.clone(),
                    join_strings(bypass_domains, ","),
                ),
            );
        }
        assert(models(commands@) =~= before + plan_for(plan, name));
        i += 1;
    }
    assert(strings(services@).take(services.len() as int) =~= strings(services@));
    commands
}

/// Unsets the global proxy on every network service.
pub fn unset_global_proxy_macos(services: &Vec<String>, bypass_domains: &Vec<String>) -> (commands:
    Vec<ProxyCommand<String>>)
    ensures
        models(commands@) == plan_for_all(
            ServicePlan::UnsetGlobal { bypass: strings(bypass_domains@) },
            strings(services@),
        ),
{
    let ghost plan = ServicePlan::UnsetGlobal { bypass: strings(bypass_domains@) };
    let mut commands: Vec<ProxyCommand<String>> = Vec::new();
    let mut i: usize = 0;
    assert(models(commands@) =~= plan_for_all(plan, strings(services@).take(0)));
    while i < services.len()
        invariant
            i <= services.len(),
            plan == (ServicePlan::UnsetGlobal { bypass: strings(bypass_domains@) }),
            models(commands@) == plan_for_all(plan, strings(services@).take(i as int)),
        decreases services.len() - i,
    {
        let ghost before = models(commands@);
        let ghost name = services@[i as int]@;
        proof {
            assert(strings(services@).take(i + 1).drop_last() =~= strings(services@).take(
                i as int,
            ));
            assert(strings(services@).take(i + 1).last() == name);
        }
        let service = &services[i];
        commands.push(ProxyCommand::MacProxyState(service.clone(), ProxyKind::Http, false));
        commands.push(ProxyCommand::MacProxyState(service.clone(), ProxyKind::Https, false));
        commands.push(ProxyCommand::MacProxyState(service.clone(), ProxyKind::Socks, false));
        if bypass_domains.len() > 0 {
            commands.push(ProxyCommand::MacBypassDomains(service.clone(), String::new()));
        }
        assert(models(commands@) =~= before + plan_for(plan, name));
        i += 1;
    }
    assert(strings(services@).take(services.len() as int) =~= strings(services@));
    commands
}

/// Sets the PAC proxy on every network service.
pub fn set_pac_proxy_macos(services: &Vec<String>, pac_url: &str) -> (commands: Vec<
    ProxyCommand<String>,
>)
    ensures
        models(commands@) == plan_for_all(
            ServicePlan::SetPac { pac_url: pac_url@ },
            strings(services@),
        ),
{
    let ghost plan = ServicePlan::SetPac { pac_url: pac_url@ };
    let mut commands: Vec<ProxyCommand<String>> = Vec::new();
    let mut i: usize = 0;
    assert(models(commands@) =~= plan_for_all(plan, strings(services@).take(0)));
    while i < services.len()
        invariant
            i <= services.len(),
            plan == (ServicePlan::SetPac { pac_url: pac_url@ }),
            models(commands@) == plan_for_all(plan, strings(services@).take(i as int)),
        decreases services.len() - i,
    {
        let ghost before = models(commands@);
        let ghost name = services@[i as int]@;
        proof {
            assert(strings(services@).take(i + 1).drop_last() =~= strings(services@).take(
                i as int,
            ));
            assert(strings(services@).take(i + 1).last() == name);
        }
        let service = &services[i];
        commands.push(ProxyCommand::MacAutoProxyUrl(service.clone(), pac_url.to_owned()));
        commands.push(ProxyCommand::MacAutoProxyState(service.clone(), true));
        assert(models(commands@) =~= before + plan_for(plan, name));
        i += 1;
    }
    assert(strings(services@).take(services.len() as int) =~= strings(services@));
    commands
}

/// Unsets the PAC proxy on every network service.
pub fn unset_pac_proxy_macos(services: &Vec<String>) -> (commands: Vec<ProxyCommand<String>>)
    ensures
        models(commands@) == plan_for_all(ServicePlan::UnsetPac, strings(services@)),
{
    let ghost plan = ServicePlan::UnsetPac;
    let mut commands: Vec<ProxyCommand<String>> = Vec::new();
    let mut i: usize = 0;
    assert(models(commands@) =~= plan_for_all(plan, strings(services@).take(0)));
    while i < services.len()
        invariant
            i <= services.len(),
            plan == ServicePlan::UnsetPac,
            models(commands@) == plan_for_all(plan, strings(services@).take(i as int)),
        decreases services.len() - i,
    {
        let ghost before = models(commands@);
        let ghost name = services@[i as int]@;
        proof {
            assert(strings(services@).take(i + 1).drop_last() =~= strings(services@).take(
                i as int,
            ));
            assert(strings(services@).take(i + 1).last() == name);
        }
        let service = &services[i];
        commands.push(ProxyCommand::MacAutoProxyState(service.clone(), false));
        assert(models(commands@) =~= before + plan_for(plan, name));
        i += 1;
    }
    assert(strings(services@).take(services.len() as int) =~= strings(services@));
    commands
}

} // verus!
