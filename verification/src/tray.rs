//! Values exchanged with the system tray.

use crate::config::store::EndpointRow;
use crate::mode_switch::{mode_text, ProxyMode};
use crate::text::{
    chars_of, decimal, extend_chars, join_strings, joined, matches_at, occurs_at, push_decimal,
    same_text, slice_chars, string_of, strings,
};
use vstd::prelude::*;
use vstd::string::*;

verus! {

/// Message emitted towards the tray front end.
pub struct SystemTrayPayload {
    message: String,
}

impl SystemTrayPayload {
    /// The text carried by the payload.
    pub closed spec fn text(&self) -> Seq<char> {
        self.message@
    }

    /// A payload with the given text.
    pub fn new(message: &str) -> (payload: Self)
        ensures
            payload.text() == message@,
    {
        SystemTrayPayload { message: message.to_owned() }
    }

    /// The text carried by the payload.
    pub fn message(&self) -> (text: &str)
        ensures
            text@ == self.text(),
    {
        self.message.as_str()
    }
}

/// What the tray shows of the engine.
#[derive(Clone, Copy, Debug, PartialEq, Eq, Structural)]
pub enum TrayState {
    Paused,
    Running,
}

impl TrayState {
    /// The tray state for a persisted run state: running for 1, paused for
    /// anything else.
    pub fn from_service_state(service_running_state: i32) -> (state: TrayState)
        ensures
            state == (if service_running_state == 1 {
                TrayState::Running
            } else {
                TrayState::Paused
            }),
    {
        if service_running_state == 1 {
            TrayState::Running
        } else {
            TrayState::Paused
        }
    }

    /// The state after the service toggle was used.
    pub fn toggled(self) -> (state: TrayState)
        ensures
            state == (match self {
                TrayState::Running => TrayState::Paused,
                TrayState::Paused => TrayState::Running,
            }),
    {
        match self {
            TrayState::Running => TrayState::Paused,
            TrayState::Paused => TrayState::Running,
        }
    }
}

/// The mark before the label of what is selected.
pub open spec fn check_mark() -> Seq<char> {
    "\u{2713} "@
}

/// The label that tells whether the engine runs.
pub open spec fn status_text(running: bool, engine_version: Seq<char>) -> Seq<char> {
    "v2ray-core: "@ + (if running {
        "On"@
    } else {
        "Off"@
    }) + " (v"@ + engine_version + ")"@
}

pub fn status_label(running: bool, engine_version: &str) -> (label: String)
    ensures
        label@ == status_text(running, engine_version@),
{
    let mut out = chars_of("v2ray-core: ");
    extend_chars(
        &mut out,
        &chars_of(
            if running {
                "On"
            } else {
                "Off"
            },
        ),
    );
    extend_chars(&mut out, &chars_of(" (v"));
    extend_chars(&mut out, &chars_of(engine_version));
    extend_chars(&mut out, &chars_of(")"));
    string_of(&out)
}

/// The label of the service toggle: it offers the opposite of what is.
pub open spec fn toggle_text(running: bool) -> Seq<char> {
    if running {
        "Turn v2ray-core Off"@
    } else {
        "Turn v2ray-core On"@
    }
}

pub fn toggle_label(running: bool) -> (label: String)
    ensures
        label@ == toggle_text(running),
{
    if running {
        "Turn v2ray-core Off".to_owned()
    } else {
        "Turn v2ray-core On".to_owned()
    }
}

/// The plain label of a proxy mode.
pub open spec fn mode_title(mode: ProxyMode) -> Seq<char> {
    match mode {
        ProxyMode::Pac => "PAC Mode"@,
        ProxyMode::Global => "Global Mode"@,
        ProxyMode::Manual => "Manual Mode"@,
    }
}

/// The label of a proxy mode in the menu: marked where it is the stored one.
pub open spec fn mode_label_text(mode: ProxyMode, stored: Seq<char>) -> Seq<char> {
    if stored == mode_text(mode) {
        check_mark() + mode_title(mode)
    } else {
        mode_title(mode)
    }
}

pub fn mode_label(mode: ProxyMode, stored: &str) -> (label: String)
    ensures
        label@ == mode_label_text(mode, stored@),
{
    let title = match mode {
        ProxyMode::Pac => "PAC Mode",
        ProxyMode::Global => "Global Mode",
        ProxyMode::Manual => "Manual Mode",
    };
    if same_text(stored, mode.name()) {
        let mut out = chars_of("\u{2713} ");
        extend_chars(&mut out, &chars_of(title));
        string_of(&out)
    } else {
        title.to_owned()
    }
}

/// An entry of the endpoints submenu.
pub struct TrayItem {
    pub id: String,
    pub label: String,
    pub enabled: bool,
}

/// The identifier of the menu entry of an endpoint.
pub open spec fn endpoint_item_id(endpoint_id: Seq<char>) -> Seq<char> {
    "endpoint:"@ + endpoint_id
}

/// The label of the menu entry of an endpoint: its remark, marked where the
/// endpoint is the active one.
pub open spec fn endpoint_item_label(row: EndpointRow) -> Seq<char> {
    if row.active {
        check_mark() + row.remark@
    } else {
        row.remark@
    }
}

/// The menu entry of an endpoint. The active endpoint cannot be chosen
/// again.
pub fn endpoint_item(row: &EndpointRow) -> (item: TrayItem)
    ensures
        item.id@ == endpoint_item_id(row.endpoint_id@),
        item.label@ == endpoint_item_label(*row),
        item.enabled == !row.active,
{
    let mut id = chars_of("endpoint:");
    extend_chars(&mut id, &chars_of(row.endpoint_id.as_str()));
    let label = if row.active {
        let mut out = chars_of("\u{2713} ");
        extend_chars(&mut out, &chars_of(row.remark.as_str()));
        string_of(&out)
    } else {
        row.remark.clone()
    };
    TrayItem { id: string_of(&id), label, enabled: !row.active }
}

/// The entries of the endpoints submenu: one per endpoint, or a single dead
/// entry where there is none.
pub fn endpoint_items(endpoints: &Vec<EndpointRow>) -> (items: Vec<TrayItem>)
    ensures
        endpoints@.len() == 0 ==> {
            &&& items@.len() == 1
            &&& items@[0].id@ == "no_endpoints"@
            &&& items@[0].label@ == "No Endpoints Available"@
            &&& !items@[0].enabled
        },
        endpoints@.len() > 0 ==> {
            &&& items@.len() == endpoints@.len()
            &&& forall|i: int|
                0 <= i < endpoints@.len() ==> {
                    &&& (#[trigger] items@[i]).id@ == endpoint_item_id(endpoints@[i].endpoint_id@)
                    &&& items@[i].label@ == endpoint_item_label(endpoints@[i])
                    &&& items@[i].enabled == !endpoints@[i].active
                }
        },
{
    let mut items: Vec<TrayItem> = Vec::new();
    if endpoints.len() == 0 {
        items.push(
            TrayItem {
                id: "no_endpoints".to_owned(),
                label: "No Endpoints Available".to_owned(),
                enabled: false,
            },
        );
        return items;
    }
    let mut i: usize = 0;
    while i < endpoints.len()
        invariant
            i <= endpoints.len(),
            items@.len() == i,
            forall|k: int|
                0 <= k < i ==> {
                    &&& (#[trigger] items@[k]).id@ == endpoint_item_id(endpoints@[k].endpoint_id@)
                    &&& items@[k].label@ == endpoint_item_label(endpoints@[k])
                    &&& items@[k].enabled == !endpoints@[k].active
                },
        decreases endpoints.len() - i,
    {
        items.push(endpoint_item(&endpoints[i]));
        i += 1;
    }
    items
}

/// What a click in the tray menu asks for.
pub enum MenuEvent {
    /// The endpoint with this identifier is to become the active one.
    Endpoint(String),
    Show,
    CheckWebsite,
    Help,
    Quit,
    Hide,
    ToggleService,
    ViewConfig,
    ViewPac,
    ViewLog,
    SwitchPac,
    SwitchGlobal,
    SwitchManual,
    ConfigureEndpoints,
    CopyProxyCmd,
    Preferences,
    /// An entry without effect.
    Other,
}

/// `s` without every leading copy of the non-empty `prefix`.
pub open spec fn without_leading(s: Seq<char>, prefix: Seq<char>) -> Seq<char>
    decreases s.len(),
{
    if prefix.len() > 0 && occurs_at(s, prefix, 0) {
        without_leading(s.skip(prefix.len() as int), prefix)
    } else {
        s
    }
}

/// The entry that an identifier without endpoint names.
pub open spec fn plain_menu_event(id: Seq<char>) -> MenuEvent {
    if id == "show"@ {
        MenuEvent::Show
    } else if id == "check-website"@ {
        MenuEvent::CheckWebsite
    } else if id == "help"@ {
        MenuEvent::Help
    } else if id == "quit"@ {
        MenuEvent::Quit
    } else if id == "hide"@ {
        MenuEvent::Hide
    } else if id == "toggle-service"@ {
        MenuEvent::ToggleService
    } else if id == "view-config"@ {
        MenuEvent::ViewConfig
    } else if id == "view-pac"@ {
        MenuEvent::ViewPac
    } else if id == "view-log"@ {
        MenuEvent::ViewLog
    } else if id == "switch-pac"@ {
        MenuEvent::SwitchPac
    } else if id == "switch-global"@ {
        MenuEvent::SwitchGlobal
    } else if id == "switch-manual"@ {
        MenuEvent::SwitchManual
    } else if id == "configure-endpoints"@ {
        MenuEvent::ConfigureEndpoints
    } else if id == "copy-proxy-cmd"@ {
        MenuEvent::CopyProxyCmd
    } else if id == "preferences"@ {
        MenuEvent::Preferences
    } else {
        MenuEvent::Other
    }
}

fn plain_event(id: &str) -> (event: MenuEvent)
    ensures
        event == plain_menu_event(id@),
{
    if same_text(id, "show") {
        MenuEvent::Show
    } else if same_text(id, "check-website") {
        MenuEvent::CheckWebsite
    } else if same_text(id, "help") {
        MenuEvent::Help
    } else if same_text(id, "quit") {
        MenuEvent::Quit
    } else if same_text(id, "hide") {
        MenuEvent::Hide
    } else if same_text(id, "toggle-service") {
        MenuEvent::ToggleService
    } else if same_text(id, "view-config") {
        MenuEvent::ViewConfig
    } else if same_text(id, "view-pac") {
        MenuEvent::ViewPac
    } else if same_text(id, "view-log") {
        MenuEvent::ViewLog
    } else if same_text(id, "switch-pac") {
        MenuEvent::SwitchPac
    } else if same_text(id, "switch-global") {
        MenuEvent::SwitchGlobal
    } else if same_text(id, "switch-manual") {
        MenuEvent::SwitchManual
    } else if same_text(id, "configure-endpoints") {
        MenuEvent::ConfigureEndpoints
    } else if same_text(id, "copy-proxy-cmd") {
        MenuEvent::CopyProxyCmd
    } else if same_text(id, "preferences") {
        MenuEvent::Preferences
    } else {
        MenuEvent::Other
    }
}

/// Reads the identifier of a menu entry: an identifier that begins with
/// `endpoint:` names the endpoint behind that prefix.
pub fn parse_menu_event(id: &str) -> (event: MenuEvent)
    ensures
        occurs_at(id@, "endpoint:"@, 0) ==> (event matches MenuEvent::Endpoint(e) && e@
            == without_leading(id@, "endpoint:"@)),
        !occurs_at(id@, "endpoint:"@, 0) ==> event == plain_menu_event(id@),
{
    let text = chars_of(id);
    let prefix = chars_of("endpoint:");
    proof {
        reveal_strlit("endpoint:");
    }
    if !matches_at(&text, &prefix, 0) {
        return plain_event(id);
    }
    let mut start: usize = 0;
    assert(text@.skip(0) =~= text@);
    while matches_at(&text, &prefix, start)
        invariant
            start <= text.len(),
            prefix@ == "endpoint:"@,
            prefix@.len() == 9,
            without_leading(text@, prefix@) == without_leading(text@.skip(start as int), prefix@),
        decreases text.len() - start,
    {
        proof {
            let rest = text@.skip(start as int);
            assert(rest.subrange(0, 9) =~= text@.subrange(start as int, start + 9));
            assert(rest.skip(9) =~= text@.skip(start + 9));
        }
        start += prefix.len();
    }
    proof {
        let rest = text@.skip(start as int);
        if occurs_at(rest, prefix@, 0) {
            assert(rest.subrange(0, 9) =~= text@.subrange(start as int, start + 9));
        }
        assert(rest =~= text@.subrange(start as int, text.len() as int));
    }
    MenuEvent::Endpoint(string_of(&slice_chars(&text, start, text.len())))
}

/// An address as a command names it: host, colon, port.
pub open spec fn address_text(host: Seq<char>, port: u16) -> Seq<char> {
    host + ":"@ + decimal(port as nat)
}

/// The shell command that makes a terminal use the local proxies.
pub open spec fn shell_command_text(
    windows: bool,
    http_listen: Seq<char>,
    http_port: u16,
    socks_listen: Seq<char>,
    socks_port: u16,
    bypass: Seq<Seq<char>>,
) -> Seq<char> {
    if windows {
        "set HTTP_PROXY=http://"@ + address_text(http_listen, http_port)
            + " \nset HTTPS_PROXY=http://"@ + address_text(http_listen, http_port)
            + " \nset ALL_PROXY=socks5://"@ + address_text(socks_listen, socks_port)
            + " \nset NO_PROXY='"@ + joined(bypass, ","@) + "'"@
    } else {
        "export http_proxy=http://"@ + address_text(http_listen, http_port)
            + "; export https_proxy=http://"@ + address_text(http_listen, http_port)
            + "; export all_proxy=socks5://"@ + address_text(socks_listen, socks_port)
            + "; export no_proxy='"@ + joined(bypass, ","@) + "';"@
    }
}

fn push_address(out: &mut Vec<char>, host: &str, port: u16)
    ensures
        final(out)@ == old(out)@ + address_text(host@, port),
{
    extend_chars(out, &chars_of(host));
    extend_chars(out, &chars_of(":"));
    push_decimal(out, port as u64);
    assert(out@ =~= old(out)@ + address_text(host@, port));
}

pub fn proxy_shell_command(
    windows: bool,
    http_listen: &str,
    http_port: u16,
    socks_listen: &str,
    socks_port: u16,
    bypass_domains: &Vec<String>,
) -> (command: String)
    ensures
        command@ == shell_command_text(
            windows,
            http_listen@,
            http_port,
            socks_listen@,
            socks_port,
            strings(bypass_domains@),
        ),
{
    let bypass = join_strings(bypass_domains, ",");
    if windows {
        let mut out = chars_of("set HTTP_PROXY=http://");
        push_address(&mut out, http_listen, http_port);
        extend_chars(&mut out, &chars_of(" \nset HTTPS_PROXY=http://"));
        push_address(&mut out, http_listen, http_port);
        extend_chars(&mut out, &chars_of(" \nset ALL_PROXY=socks5://"));
        push_address(&mut out, socks_listen, socks_port);
        extend_chars(&mut out, &chars_of(" \nset NO_PROXY='"));
        extend_chars(&mut out, &chars_of(bypass.as_str()));
        extend_chars(&mut out, &chars_of("'"));
        string_of(&out)
    } else {
        let mut out = chars_of("export http_proxy=http://");
        push_address(&mut out, http_listen, http_port);
        extend_chars(&mut out, &chars_of("; export https_proxy=http://"));
        push_address(&mut out, http_listen, http_port);
        extend_chars(&mut out, &chars_of("; export all_proxy=socks5://"));
        push_address(&mut out, socks_listen, socks_port);
        extend_chars(&mut out, &chars_of("; export no_proxy='"));
        extend_chars(&mut out, &chars_of(bypass.as_str()));
        extend_chars(&mut out, &chars_of("';"));
        string_of(&out)
    }
}

/// What a request to close the main window leads to.
#[derive(Clone, Copy, Debug, PartialEq, Eq, Structural)]
pub enum CloseDecision {
    /// The window is hidden; the application stays in the tray.
    HideWindow,
    /// The application goes down: proxy settings cleared, engine stopped.
    ShutDown,
}

/// Decides what closing the main window does: with the tray icon hidden
/// (flag 1) the application goes down, else it withdraws to the tray.
pub fn on_close_requested(hide_tray_bar: i32) -> (decision: CloseDecision)
    ensures
        decision == (if hide_tray_bar == 1 {
            CloseDecision::ShutDown
        } else {
            CloseDecision::HideWindow
        }),
{
    if hide_tray_bar == 1 {
        CloseDecision::ShutDown
    } else {
        CloseDecision::HideWindow
    }
}

/// Whether the tray icon is shown: unless the user hid it (flag 1).
pub fn tray_visible(hide_tray_bar: i32) -> (visible: bool)
    ensures
        visible == (hide_tray_bar != 1),
{
    hide_tray_bar != 1
}

/// Decides what follows the splash screen: whether the dashboard is shown,
/// which it is where the stored flag is 1 and where no flag could be read.
pub fn close_splashscreen(dashboard_pop_when_start: Option<i32>) -> (shown: bool)
    ensures
        shown == (match dashboard_pop_when_start {
            Some(flag) => flag == 1,
            None => true,
        }),
{
    match dashboard_pop_when_start {
        Some(flag) => flag == 1,
        None => true,
    }
}

} // verus!
