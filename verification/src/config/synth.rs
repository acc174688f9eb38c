//! The synthesizer: from the stored settings of a user and an endpoint to the
//! configuration document that the engine loads.

use crate::config::dns::{dns_doc, dns_section};
use crate::config::error::{missing, ConfigError, Section, SynthesisError};
use crate::config::outbound::{
    block_outbound, block_outbound_doc, collect_servers, collect_shadowsocks, collect_vnext,
    direct_outbound, servers_of,
    direct_outbound_doc, mux_doc, mux_section, outbound, outbound_doc, outbound_settings,
    outbound_settings_doc, shadowsocks_of, vnext_of,
};
use crate::config::sections::{
    config_document, config_document_doc, inbound_doc, inbound_section, list, log_doc, log_section,
};
use crate::config::store::{find_first, first_with_key, EndpointRow, InboundRow, SettingsStore};
use crate::config::stream::{
    grpc_doc, grpc_section, http2_doc, http2_section, kcp_doc, kcp_section, quic_doc, quic_section,
    stream_doc, stream_settings, tcp_doc, tcp_section, tls_doc, tls_section, ws_doc, ws_section,
};
use crate::json::{
    all_well_formed, docs_of, null, option_doc, pretty_text, render_pretty, text_of, Json,
    JsonDoc,
};
use crate::text::same_text;
use vstd::prelude::*;
use vstd::string::*;

verus! {

// ---------------------------------------------------------------------------
// Association of endpoint and user
// ---------------------------------------------------------------------------

/// The group that the user can reach: that of the user's first settings row.
pub open spec fn user_group(store: SettingsStore, user: Seq<char>) -> Option<Seq<char>> {
    match first_with_key(store.user_groups@, user) {
        Some(i) => Some(store.user_groups@[i].group_id@),
        None => None,
    }
}

/// Whether some endpoint row has the given identifier and group.
pub open spec fn endpoint_in_group(
    endpoints: Seq<EndpointRow>,
    endpoint: Seq<char>,
    group: Seq<char>,
) -> bool {
    exists|i: int|
        0 <= i < endpoints.len() && (#[trigger] endpoints[i]).endpoint_id@ == endpoint
            && endpoints[i].group_id@ == group
}

/// Whether the endpoint belongs to the group that the user can reach.
pub open spec fn is_associated(store: SettingsStore, user: Seq<char>, endpoint: Seq<char>) -> bool {
    match user_group(store, user) {
        Some(group) => endpoint_in_group(store.endpoints@, endpoint, group),
        None => false,
    }
}

/// Tests whether the endpoint belongs to the group that the user can reach.
pub fn check_association(store: &SettingsStore, user: &String, endpoint: &String) -> (ok: bool)
    ensures
        ok == is_associated(*store, user@, endpoint@),
{
    let at = match find_first(&store.user_groups, user) {
        Some(i) => i,
        None => {
            return false;
        },
    };
    let group = &store.user_groups[at].group_id;
    let mut i: usize = 0;
    while i < store.endpoints.len()
        invariant
            i <= store.endpoints.len(),
            user_group(*store, user@) == Some(group@),
            forall|k: int|
                0 <= k < i ==> !((#[trigger] store.endpoints@[k]).endpoint_id@ == endpoint@
                    && store.endpoints@[k].group_id@ == group@),
        decreases store.endpoints.len() - i,
    {
        if store.endpoints[i].endpoint_id == *endpoint && store.endpoints[i].group_id == *group {
            assert(store.endpoints@[i as int].endpoint_id@ == endpoint@);
            return true;
        }
        i += 1;
    }
    false
}

// ---------------------------------------------------------------------------
// Inbounds
// ---------------------------------------------------------------------------

/// The inbounds of a user, in storage order, or the first fault among them.
pub open spec fn inbounds_of(rows: Seq<InboundRow>, user: Seq<char>) -> Result<
    Seq<JsonDoc>,
    SynthesisError,
>
    decreases rows.len(),
{
    if rows.len() == 0 {
        Ok(Seq::empty())
    } else {
        match inbounds_of(rows.drop_last(), user) {
            Err(e) => Err(e),
            Ok(docs) => if rows.last().user_id@ != user {
                Ok(docs)
            } else {
                match inbound_doc(rows.last()) {
                    Err(e) => Err(e),
                    Ok(d) => Ok(docs.push(d)),
                }
            },
        }
    }
}

pub(crate) fn collect_inbounds(rows: &Vec<InboundRow>, user: &String) -> (result: Result<
    Vec<Json>,
    SynthesisError,
>)
    ensures
        match result {
            Ok(items) => inbounds_of(rows@, user@) == Ok::<Seq<JsonDoc>, SynthesisError>(
                docs_of(items@),
            ) && all_well_formed(docs_of(items@)),
            Err(e) => inbounds_of(rows@, user@) == Err::<Seq<JsonDoc>, SynthesisError>(e),
        },
{
    let mut items: Vec<Json> = Vec::new();
    let mut i: usize = 0;
    proof {
        assert(rows@.take(0) =~= Seq::<InboundRow>::empty());
        assert(docs_of(items@) =~= Seq::<JsonDoc>::empty());
    }
    while i < rows.len()
        invariant
            i <= rows.len(),
            inbounds_of(rows@.take(i as int), user@) == Ok::<Seq<JsonDoc>, SynthesisError>(
                docs_of(items@),
            ),
            all_well_formed(docs_of(items@)),
        decreases rows.len() - i,
    {
        let ghost before = docs_of(items@);
        proof {
            assert(rows@.take(i + 1).drop_last() =~= rows@.take(i as int));
        }
        if rows[i].user_id == *user {
            match inbound_section(&rows[i]) {
                Ok(j) => {
                    items.push(j);
                    assert(docs_of(items@) =~= before.push(j@));
                },
                Err(e) => {
                    proof {
                        lemma_inbounds_fault_stays(rows@, user@, i + 1, e);
                    }
                    return Err(e);
                },
            }
        }
        i += 1;
    }
    assert(rows@.take(rows.len() as int) =~= rows@);
    Ok(items)
}

proof fn lemma_inbounds_fault_stays(
    rows: Seq<InboundRow>,
    user: Seq<char>,
    n: int,
    e: SynthesisError,
)
    requires
        0 <= n <= rows.len(),
        inbounds_of(rows.take(n), user) == Err::<Seq<JsonDoc>, SynthesisError>(e),
    ensures
        inbounds_of(rows, user) == Err::<Seq<JsonDoc>, SynthesisError>(e),
    decreases rows.len(),
{
    if n == rows.len() {
        assert(rows.take(n) =~= rows);
    } else {
        assert(rows.drop_last().take(n) =~= rows.take(n));
        lemma_inbounds_fault_stays(rows.drop_last(), user, n, e);
    }
}

// ---------------------------------------------------------------------------
// The primary outbound
// ---------------------------------------------------------------------------

/// The settings of the transport that the network names: taken from the
/// endpoint's row of that transport, which must exist; null for a network
/// that has no settings of its own.
pub open spec fn transport_doc(store: SettingsStore, endpoint: Seq<char>, network: Seq<char>) -> Result<
    JsonDoc,
    SynthesisError,
> {
    if network == "tcp"@ {
        match first_with_key(store.tcp@, endpoint) {
            Some(i) => Ok(tcp_doc(store.tcp@[i])),
            None => Err(missing(Section::TcpSettings)),
        }
    } else if network == "kcp"@ {
        match first_with_key(store.kcp@, endpoint) {
            Some(i) => kcp_doc(store.kcp@[i]),
            None => Err(missing(Section::KcpSettings)),
        }
    } else if network == "http"@ {
        match first_with_key(store.http2@, endpoint) {
            Some(i) => Ok(http2_doc(store.http2@[i])),
            None => Err(missing(Section::Http2Settings)),
        }
    } else if network == "quic"@ {
        match first_with_key(store.quic@, endpoint) {
            Some(i) => Ok(quic_doc(store.quic@[i])),
            None => Err(missing(Section::QuicSettings)),
        }
    } else if network == "grpc"@ {
        match first_with_key(store.grpc@, endpoint) {
            Some(i) => Ok(grpc_doc(store.grpc@[i])),
            None => Err(missing(Section::GrpcSettings)),
        }
    } else if network == "ws"@ {
        match first_with_key(store.ws@, endpoint) {
            Some(i) => Ok(ws_doc(store.ws@[i])),
            None => Err(missing(Section::WsSettings)),
        }
    } else {
        Ok(JsonDoc::Null)
    }
}

fn missing_row<T>(section: Section) -> (result: Result<T, SynthesisError>)
    ensures
        result == Err::<T, SynthesisError>(missing(section)),
{
    Err(SynthesisError::Config(ConfigError::MissingRow(section)))
}

pub(crate) fn transport_section(store: &SettingsStore, endpoint: &String, network: &str) -> (result:
    Result<Json, SynthesisError>)
    ensures
        match result {
            Ok(j) => transport_doc(*store, endpoint@, network@) == Ok::<JsonDoc, SynthesisError>(
                j@,
            ) && j@.well_formed(),
            Err(e) => transport_doc(*store, endpoint@, network@) == Err::<JsonDoc, SynthesisError>(
                e,
            ),
        },
{
    if same_text(network, "tcp") {
        match find_first(&store.tcp, endpoint) {
            Some(i) => Ok(tcp_section(&store.tcp[i])),
            None => missing_row(Section::TcpSettings),
        }
    } else if same_text(network, "kcp") {
        match find_first(&store.kcp, endpoint) {
            Some(i) => kcp_section(&store.kcp[i]),
            None => missing_row(Section::KcpSettings),
        }
    } else if same_text(network, "http") {
        match find_first(&store.http2, endpoint) {
            Some(i) => Ok(http2_section(&store.http2[i])),
            None => missing_row(Section::Http2Settings),
        }
    } else if same_text(network, "quic") {
        match find_first(&store.quic, endpoint) {
            Some(i) => Ok(quic_section(&store.quic[i])),
            None => missing_row(Section::QuicSettings),
        }
    } else if same_text(network, "grpc") {
        match find_first(&store.grpc, endpoint) {
            Some(i) => Ok(grpc_section(&store.grpc[i])),
            None => missing_row(Section::GrpcSettings),
        }
    } else if same_text(network, "ws") {
        match find_first(&store.ws, endpoint) {
            Some(i) => Ok(ws_section(&store.ws[i])),
            None => missing_row(Section::WsSettings),
        }
    } else {
        Ok(null())
    }
}

/// The TLS settings of the endpoint: none where it has no row.
pub open spec fn tls_part(store: SettingsStore, endpoint: Seq<char>) -> Result<
    Option<JsonDoc>,
    SynthesisError,
> {
    match first_with_key(store.tls@, endpoint) {
        None => Ok(None),
        Some(i) => match tls_doc(store.tls@[i]) {
            Ok(d) => Ok(Some(d)),
            Err(e) => Err(e),
        },
    }
}

/// The stream settings of the endpoint: its stream row must exist; then the
/// transport is read, then TLS.
pub open spec fn stream_of(store: SettingsStore, endpoint: Seq<char>) -> Result<
    JsonDoc,
    SynthesisError,
> {
    match first_with_key(store.streams@, endpoint) {
        None => Err(missing(Section::StreamSettings)),
        Some(i) => {
            let row = store.streams@[i];
            match transport_doc(store, endpoint, row.network@) {
                Err(e) => Err(e),
                Ok(transport) => match tls_part(store, endpoint) {
                    Err(e) => Err(e),
                    Ok(tls) => Ok(stream_doc(row.network@, transport, tls, row.security@)),
                },
            }
        },
    }
}

pub(crate) fn stream_section(store: &SettingsStore, endpoint: &String) -> (result: Result<
    Json,
    SynthesisError,
>)
    ensures
        match result {
            Ok(j) => stream_of(*store, endpoint@) == Ok::<JsonDoc, SynthesisError>(j@)
                && j@.well_formed(),
            Err(e) => stream_of(*store, endpoint@) == Err::<JsonDoc, SynthesisError>(e),
        },
{
    let at = match find_first(&store.streams, endpoint) {
        Some(i) => i,
        None => {
            return missing_row(Section::StreamSettings);
        },
    };
    let row = &store.streams[at];
    let transport = match transport_section(store, endpoint, row.network.as_str()) {
        Ok(t) => t,
        Err(e) => {
            return Err(e);
        },
    };
    let tls = match find_first(&store.tls, endpoint) {
        None => None,
        Some(i) => match tls_section(&store.tls[i]) {
            Ok(t) => Some(t),
            Err(e) => {
                return Err(e);
            },
        },
    };
    assert(tls_part(*store, endpoint@) == Ok::<Option<JsonDoc>, SynthesisError>(option_doc(tls)));
    Ok(stream_settings(row.network.as_str(), transport, tls, row.security.as_str()))
}

/// The protocol settings of the endpoint: its upstream servers for `vmess`,
/// its servers for `shadowsocks`, `trojan` and `hysteria2`, nothing for any
/// other protocol.
pub open spec fn protocol_settings(
    store: SettingsStore,
    endpoint: Seq<char>,
    protocol: Seq<char>,
) -> Result<JsonDoc, SynthesisError> {
    if protocol == "vmess"@ {
        match vnext_of(store.vnext@, store.vmess_users@, endpoint) {
            Ok(servers) => Ok(
                outbound_settings_doc(
                    JsonDoc::Array(servers),
                    JsonDoc::Null,
                    JsonDoc::Null,
                    JsonDoc::Null,
                ),
            ),
            Err(e) => Err(e),
        }
    } else if protocol == "shadowsocks"@ {
        match shadowsocks_of(store.shadowsocks@, endpoint) {
            Ok(servers) => Ok(
                outbound_settings_doc(
                    JsonDoc::Null,
                    JsonDoc::Array(servers),
                    JsonDoc::Null,
                    JsonDoc::Null,
                ),
            ),
            Err(e) => Err(e),
        }
    } else if protocol == "trojan"@ {
        match servers_of(store.trojan@, endpoint, Section::TrojanServers) {
            Ok(servers) => Ok(
                outbound_settings_doc(
                    JsonDoc::Null,
                    JsonDoc::Array(servers),
                    JsonDoc::Null,
                    JsonDoc::Null,
                ),
            ),
            Err(e) => Err(e),
        }
    } else if protocol == "hysteria2"@ {
        match servers_of(store.hysteria2@, endpoint, Section::Hysteria2) {
            Ok(servers) => Ok(
                outbound_settings_doc(
                    JsonDoc::Null,
                    JsonDoc::Array(servers),
                    JsonDoc::Null,
                    JsonDoc::Null,
                ),
            ),
            Err(e) => Err(e),
        }
    } else {
        Ok(outbound_settings_doc(JsonDoc::Null, JsonDoc::Null, JsonDoc::Null, JsonDoc::Null))
    }
}

pub(crate) fn protocol_section(store: &SettingsStore, endpoint: &String, protocol: &str) -> (result:
    Result<Json, SynthesisError>)
    ensures
        match result {
            Ok(j) => protocol_settings(*store, endpoint@, protocol@) == Ok::<
                JsonDoc,
                SynthesisError,
            >(j@) && j@.well_formed(),
            Err(e) => protocol_settings(*store, endpoint@, protocol@) == Err::<
                JsonDoc,
                SynthesisError,
            >(e),
        },
{
    if same_text(protocol, "vmess") {
        match collect_vnext(&store.vnext, &store.vmess_users, endpoint) {
            Ok(servers) => Ok(outbound_settings(list(servers), null(), null(), null())),
            Err(e) => Err(e),
        }
    } else if same_text(protocol, "shadowsocks") {
        match collect_shadowsocks(&store.shadowsocks, endpoint) {
            Ok(servers) => Ok(outbound_settings(null(), list(servers), null(), null())),
            Err(e) => Err(e),
        }
    } else if same_text(protocol, "trojan") {
        match collect_servers(&store.trojan, endpoint, Section::TrojanServers) {
            Ok(servers) => Ok(outbound_settings(null(), list(servers), null(), null())),
            Err(e) => Err(e),
        }
    } else if same_text(protocol, "hysteria2") {
        match collect_servers(&store.hysteria2, endpoint, Section::Hysteria2) {
            Ok(servers) => Ok(outbound_settings(null(), list(servers), null(), null())),
            Err(e) => Err(e),
        }
    } else {
        Ok(outbound_settings(null(), null(), null(), null()))
    }
}

/// The primary outbound of the endpoint: its outbound row must exist; then
/// multiplexing, stream settings and protocol settings are read, in that
/// order.
pub open spec fn primary_outbound(store: SettingsStore, endpoint: Seq<char>) -> Result<
    JsonDoc,
    SynthesisError,
> {
    match first_with_key(store.outbounds@, endpoint) {
        None => Err(missing(Section::Outbounds)),
        Some(i) => {
            let row = store.outbounds@[i];
            match mux_doc(row) {
                Err(e) => Err(e),
                Ok(mux) => match stream_of(store, endpoint) {
                    Err(e) => Err(e),
                    Ok(stream) => match protocol_settings(store, endpoint, row.protocol@) {
                        Err(e) => Err(e),
                        Ok(settings) => Ok(
                            outbound_doc(mux, row.protocol@, stream, row.tag@, settings),
                        ),
                    },
                },
            }
        },
    }
}

pub(crate) fn primary_section(store: &SettingsStore, endpoint: &String) -> (result: Result<
    Json,
    SynthesisError,
>)
    ensures
        match result {
            Ok(j) => primary_outbound(*store, endpoint@) == Ok::<JsonDoc, SynthesisError>(j@)
                && j@.well_formed(),
            Err(e) => primary_outbound(*store, endpoint@) == Err::<JsonDoc, SynthesisError>(e),
        },
{
    let at = match find_first(&store.outbounds, endpoint) {
        Some(i) => i,
        None => {
            return missing_row(Section::Outbounds);
        },
    };
    let row = &store.outbounds[at];
    let mux = match mux_section(row) {
        Ok(m) => m,
        Err(e) => {
            return Err(e);
        },
    };
    let stream = match stream_section(store, endpoint) {
        Ok(s) => s,
        Err(e) => {
            return Err(e);
        },
    };
    let settings = match protocol_section(store, endpoint, row.protocol.as_str()) {
        Ok(s) => s,
        Err(e) => {
            return Err(e);
        },
    };
    Ok(outbound(mux, row.protocol.as_str(), stream, row.tag.as_str(), settings))
}

/// The outbounds of a configuration: the primary one first, then `direct`,
/// then `block`.
pub open spec fn outbounds_doc(primary: JsonDoc) -> JsonDoc {
    JsonDoc::Array(seq![primary, direct_outbound_doc(), block_outbound_doc()])
}

pub(crate) fn outbounds_section(primary: Json) -> (j: Json)
    requires
        primary@.well_formed(),
    ensures
        j@ == outbounds_doc(primary@),
        j@.well_formed(),
{
    let ghost doc = primary@;
    let mut items: Vec<Json> = Vec::new();
    items.push(primary);
    items.push(direct_outbound());
    items.push(block_outbound());
    proof {
        assert(docs_of(items@) =~= seq![doc, direct_outbound_doc(), block_outbound_doc()]);
    }
    list(items)
}

// ---------------------------------------------------------------------------
// The configuration
// ---------------------------------------------------------------------------

/// The configuration document for a user and an endpoint, or the first fault
/// met: the association is checked first; then the log row, the inbounds, the
/// primary outbound and the DNS overrides are read, in that order.
pub open spec fn config_doc(store: SettingsStore, user: Seq<char>, endpoint: Seq<char>) -> Result<
    JsonDoc,
    SynthesisError,
> {
    if !is_associated(store, user, endpoint) {
        Err(SynthesisError::Association)
    } else {
        match first_with_key(store.logs@, user) {
            None => Err(missing(Section::Log)),
            Some(l) => match inbounds_of(store.inbounds@, user) {
                Err(e) => Err(e),
                Ok(inbounds) => match primary_outbound(store, endpoint) {
                    Err(e) => Err(e),
                    Ok(primary) => match first_with_key(store.dns@, user) {
                        None => Err(missing(Section::Dns)),
                        Some(d) => match dns_doc(store.dns@[d].value@) {
                            Err(e) => Err(e),
                            Ok(dns) => Ok(
                                config_document_doc(
                                    log_doc(store.logs@[l]),
                                    JsonDoc::Array(inbounds),
                                    outbounds_doc(primary),
                                    dns,
                                ),
                            ),
                        },
                    },
                },
            },
        }
    }
}

/// A synthesized engine configuration. It is complete: a value of this type
/// exists only for settings without fault.
pub struct EngineConfig {
    document: Json,
}

impl EngineConfig {
    #[verifier::type_invariant]
    spec fn valid(self) -> bool {
        self.document@.well_formed()
    }

    /// The document that the configuration holds.
    pub closed spec fn doc(self) -> JsonDoc {
        self.document@
    }

    /// The configuration as a JSON value. No object in it has two members of
    /// the same name.
    pub fn document(&self) -> (j: &Json)
        ensures
            j@ == self.doc(),
            j@.well_formed(),
    {
        proof {
            use_type_invariant(self);
        }
        &self.document
    }

    /// Prints the configuration as indented JSON text: gives what the printer
    /// gives for the document, and nothing where the printer reports a
    /// failure.
    pub fn render(&self) -> (text: Option<String>)
        ensures
            text_of(text) == pretty_text(self.doc()),
    {
        proof {
            use_type_invariant(self);
        }
        render_pretty(&self.document)
    }
}

/// Synthesizes the engine configuration for `endpoint_id` on behalf of
/// `user_id`.
pub fn synthesize(store: &SettingsStore, user_id: &str, endpoint_id: &str) -> (result: Result<
    EngineConfig,
    SynthesisError,
>)
    ensures
        match result {
            Ok(config) => config_doc(*store, user_id@, endpoint_id@) == Ok::<
                JsonDoc,
                SynthesisError,
            >(config.doc()),
            Err(e) => config_doc(*store, user_id@, endpoint_id@) == Err::<JsonDoc, SynthesisError>(
                e,
            ),
        },
{
    let user = user_id.to_owned();
    let endpoint = endpoint_id.to_owned();
    if !check_association(store, &user, &endpoint) {
        return Err(SynthesisError::Association);
    }
    let log = match find_first(&store.logs, &user) {
        Some(i) => log_section(&store.logs[i]),
        None => {
            return missing_row(Section::Log);
        },
    };
    let inbounds = match collect_inbounds(&store.inbounds, &user) {
        Ok(items) => list(items),
        Err(e) => {
            return Err(e);
        },
    };
    let primary = match primary_section(store, &endpoint) {
        Ok(p) => p,
        Err(e) => {
            return Err(e);
        },
    };
    let dns = match find_first(&store.dns, &user) {
        None => {
            return missing_row(Section::Dns);
        },
        Some(i) => match dns_section(store.dns[i].value.as_str()) {
            Ok(d) => d,
            Err(e) => {
                return Err(e);
            },
        },
    };
    let document = config_document(log, inbounds, outbounds_section(primary), dns);
    Ok(EngineConfig { document })
}

/// What `generate_config` returns for the given settings: the fault of the
/// synthesis where there is one; else the text that the printer gives for the
/// document, or a serialization error where the printer gives none.
pub open spec fn generated(
    store: SettingsStore,
    user: Seq<char>,
    endpoint: Seq<char>,
    result: Result<String, SynthesisError>,
) -> bool {
    match config_doc(store, user, endpoint) {
        Err(e) => result == Err::<String, SynthesisError>(e),
        Ok(doc) => match pretty_text(doc) {
            Some(printed) => result matches Ok(text) && text@ == printed,
            None => result == Err::<String, SynthesisError>(
                SynthesisError::Config(ConfigError::Serialization),
            ),
        },
    }
}

/// The content that `inject_config` gives for the given settings: the text
/// that the printer gives for the synthesized document; none where the
/// settings are at fault or the printer gives no text.
pub open spec fn injected_content(
    store: SettingsStore,
    user: Seq<char>,
    endpoint: Seq<char>,
) -> Option<Seq<char>> {
    match config_doc(store, user, endpoint) {
        Ok(doc) => pretty_text(doc),
        Err(_) => None,
    }
}

/// Synthesis is deterministic: two results for the same settings, user and
/// endpoint agree. Both are texts or both are errors; where they are texts,
/// they are the same text; where they are errors, they are the same error.
pub proof fn lemma_generation_is_deterministic(
    store: SettingsStore,
    user: Seq<char>,
    endpoint: Seq<char>,
    first: Result<String, SynthesisError>,
    second: Result<String, SynthesisError>,
)
    requires
        generated(store, user, endpoint, first),
        generated(store, user, endpoint, second),
    ensures
        first is Ok <==> second is Ok,
        first is Ok && second is Ok ==> first->Ok_0@ == second->Ok_0@,
        first is Err && second is Err ==> first->Err_0 == second->Err_0,
        config_doc(store, user, endpoint) is Err ==> first == second,
{
}

/// An endpoint outside the group that the user can reach is rejected, before
/// anything else is looked at.
pub proof fn lemma_unassociated_endpoint_is_rejected(
    store: SettingsStore,
    user: Seq<char>,
    endpoint: Seq<char>,
    result: Result<String, SynthesisError>,
)
    requires
        !is_associated(store, user, endpoint),
    ensures
        config_doc(store, user, endpoint) == Err::<JsonDoc, SynthesisError>(
            SynthesisError::Association,
        ),
        generated(store, user, endpoint, result) ==> result == Err::<String, SynthesisError>(
            SynthesisError::Association,
        ),
{
}

/// Every configuration holds exactly three outbounds: the primary one, with
/// the protocol and the tag of the endpoint's outbound row, then `direct`,
/// then `block`.
pub proof fn lemma_configuration_outbounds(
    store: SettingsStore,
    user: Seq<char>,
    endpoint: Seq<char>,
)
    requires
        config_doc(store, user, endpoint) is Ok,
    ensures
        ({
            let doc = config_doc(store, user, endpoint)->Ok_0;
            let row = store.outbounds@[first_with_key(store.outbounds@, endpoint)->0];
            &&& primary_outbound(store, endpoint) is Ok
            &&& doc.member("outbounds"@) == Some(
                outbounds_doc(primary_outbound(store, endpoint)->Ok_0),
            )
            &&& outbounds_doc(primary_outbound(store, endpoint)->Ok_0) matches JsonDoc::Array(
                outbounds,
            ) && outbounds.len() == 3
            &&& primary_outbound(store, endpoint)->Ok_0.member("protocol"@) == Some(
                JsonDoc::Str(row.protocol@),
            )
            &&& primary_outbound(store, endpoint)->Ok_0.member("tag"@) == Some(
                JsonDoc::Str(row.tag@),
            )
            &&& direct_outbound_doc().member("tag"@) == Some(JsonDoc::Str("direct"@))
            &&& block_outbound_doc().member("tag"@) == Some(JsonDoc::Str("block"@))
        }),
{
    lemma_outbound_members();
    lemma_document_members();
}

proof fn lemma_outbound_members()
    ensures
        forall|mux: JsonDoc, protocol: Seq<char>, stream: JsonDoc, tag: Seq<char>, settings: JsonDoc|
            (#[trigger] outbound_doc(mux, protocol, stream, tag, settings)).member("tag"@) == Some(
                JsonDoc::Str(tag),
            ) && outbound_doc(mux, protocol, stream, tag, settings).member("protocol"@) == Some(
                JsonDoc::Str(protocol),
            ),
{
    reveal_with_fuel(crate::json::find_member, 6);
    reveal_strlit("mux");
    reveal_strlit("protocol");
    reveal_strlit("streamSettings");
    reveal_strlit("tag");
    reveal_strlit("settings");
    assert("mux"@.len() == 3 && "mux"@[0] == 'm');
    assert("protocol"@.len() == 8 && "protocol"@[0] == 'p');
    assert("streamSettings"@.len() == 14);
    assert("tag"@.len() == 3 && "tag"@[0] == 't');
    assert("settings"@.len() == 8 && "settings"@[0] == 's');
    assert forall|mux: JsonDoc, protocol: Seq<char>, stream: JsonDoc, tag: Seq<char>, settings: JsonDoc|
        (#[trigger] outbound_doc(mux, protocol, stream, tag, settings)).member("tag"@) == Some(
            JsonDoc::Str(tag),
        ) && outbound_doc(mux, protocol, stream, tag, settings).member("protocol"@) == Some(
            JsonDoc::Str(protocol),
        ) by {
        let ms = outbound_doc(mux, protocol, stream, tag, settings)->Object_0;
        assert(ms.drop_first()[0] == ms[1]);
        assert(ms.drop_first().drop_first()[0] == ms[2]);
        assert(ms.drop_first().drop_first().drop_first()[0] == ms[3]);
    }
}

proof fn lemma_document_members()
    ensures
        forall|log: JsonDoc, inbounds: JsonDoc, outbounds: JsonDoc, dns: JsonDoc|
            (#[trigger] config_document_doc(log, inbounds, outbounds, dns)).member("outbounds"@)
                == Some(outbounds),
{
    reveal_with_fuel(crate::json::find_member, 8);
    reveal_strlit("log");
    reveal_strlit("inbounds");
    reveal_strlit("stats");
    reveal_strlit("api");
    reveal_strlit("policy");
    reveal_strlit("outbounds");
    assert("log"@.len() == 3 && "log"@[0] == 'l');
    assert("inbounds"@.len() == 8);
    assert("stats"@.len() == 5);
    assert("api"@.len() == 3 && "api"@[0] == 'a');
    assert("policy"@.len() == 6);
    assert("outbounds"@.len() == 9);
    assert forall|log: JsonDoc, inbounds: JsonDoc, outbounds: JsonDoc, dns: JsonDoc|
        (#[trigger] config_document_doc(log, inbounds, outbounds, dns)).member("outbounds"@)
            == Some(outbounds) by {
        let ms = config_document_doc(log, inbounds, outbounds, dns)->Object_0;
        let m1 = ms.drop_first();
        let m2 = m1.drop_first();
        let m3 = m2.drop_first();
        let m4 = m3.drop_first();
        let m5 = m4.drop_first();
        assert(m1[0] == ms[1]);
        assert(m2[0] == ms[2]);
        assert(m3[0] == ms[3]);
        assert(m4[0] == ms[4]);
        assert(m5[0] == ms[5]);
    }
}

/// Turns the printer's answer into the result of the generation.
pub fn finish_config(rendered: Option<String>) -> (result: Result<String, SynthesisError>)
    ensures
        match rendered {
            Some(text) => result == Ok::<String, SynthesisError>(text),
            None => result == Err::<String, SynthesisError>(
                SynthesisError::Config(ConfigError::Serialization),
            ),
        },
{
    match rendered {
        Some(text) => Ok(text),
        None => Err(SynthesisError::Config(ConfigError::Serialization)),
    }
}

/// Generates the configuration text that the engine reads at launch.
pub fn generate_config(store: &SettingsStore, user_id: &str, endpoint_id: &str) -> (result: Result<
    String,
    SynthesisError,
>)
    ensures
        generated(*store, user_id@, endpoint_id@, result),
{
    match synthesize(store, user_id, endpoint_id) {
        Ok(config) => finish_config(config.render()),
        Err(e) => Err(e),
    }
}

/// The content to write to the engine's configuration file for an endpoint
/// and a user: none where the settings yield no configuration, so that a
/// file is never written in part.
pub fn inject_config(store: &SettingsStore, endpoint_id: &str, user_id: &str) -> (content: Option<
    String,
>)
    ensures
        text_of(content) == injected_content(*store, user_id@, endpoint_id@),
{
    match generate_config(store, user_id, endpoint_id) {
        Ok(text) => Some(text),
        Err(_) => None,
    }
}

} // verus!
