//! The stream settings of an outbound: its transport, and TLS where the
//! endpoint has it.

use crate::config::error::{invalid_number, ConfigError, Section, SynthesisError};
use crate::config::sections::{fits_u32, flag_of, is_u32, single, to_flag};
use crate::config::store::{GrpcRow, Http2Row, KcpRow, QuicRow, TcpRow, TlsRow, WsRow};
use crate::json::{
    boolean, field, field_members, lemma_object_well_formed, mem, null, number, object, option_doc,
    text, Json, JsonDoc, JsonField, JsonMember,
};
use crate::text::same_text;
use vstd::prelude::*;
use vstd::string::*;

verus! {


/// The `Host` header of a disguised TCP request.
pub open spec fn host_header_doc(values: JsonDoc) -> JsonDoc {
    JsonDoc::Object(
        seq![
            mem("Host"@, values),
        ],
    )
}

pub(crate) fn host_header(values: Json) -> (j: Json)
    requires
        values@.well_formed(),
    ensures
        j@ == host_header_doc(values@),
        j@.well_formed(),
{
    let ghost values_doc = values@;
    let mut fields: Vec<JsonField> = Vec::new();
    fields.push(field("Host", values));
    proof {
        reveal_with_fuel(JsonDoc::well_formed, 2);
        reveal_strlit("Host");
        assert("Host"@.len() == 4);
        assert(field_members(fields@) =~= seq![
            mem("Host"@, values_doc),
        ]);
        lemma_object_well_formed(field_members(fields@));
    }
    object(fields)
}

/// The request that a TCP stream is disguised as.
pub open spec fn tcp_request_doc(path: JsonDoc, headers: JsonDoc) -> JsonDoc {
    JsonDoc::Object(
        seq![
            mem("path"@, path),
            mem("headers"@, headers),
        ],
    )
}

pub(crate) fn tcp_request(path: Json, headers: Json) -> (j: Json)
    requires
        path@.well_formed(),
        headers@.well_formed(),
    ensures
        j@ == tcp_request_doc(path@, headers@),
        j@.well_formed(),
{
    let ghost path_doc = path@;
    let ghost headers_doc = headers@;
    let mut fields: Vec<JsonField> = Vec::new();
    fields.push(field("path", path));
    fields.push(field("headers", headers));
    proof {
        reveal_with_fuel(JsonDoc::well_formed, 2);
        reveal_strlit("path");
        reveal_strlit("headers");
        assert("path"@.len() == 4);
        assert("headers"@.len() == 7);
        assert(field_members(fields@) =~= seq![
            mem("path"@, path_doc),
            mem("headers"@, headers_doc),
        ]);
        lemma_object_well_formed(field_members(fields@));
    }
    object(fields)
}

/// The header of a TCP stream.
pub open spec fn tcp_header_doc(kind: Seq<char>, request: JsonDoc) -> JsonDoc {
    JsonDoc::Object(
        seq![
            mem("type"@, JsonDoc::Str(kind)),
            mem("request"@, request),
        ],
    )
}

pub(crate) fn tcp_header(kind: &str, request: Json) -> (j: Json)
    requires
        request@.well_formed(),
    ensures
        j@ == tcp_header_doc(kind@, request@),
        j@.well_formed(),
{
    let ghost request_doc = request@;
    let mut fields: Vec<JsonField> = Vec::new();
    fields.push(field("type", text(kind)));
    fields.push(field("request", request));
    proof {
        reveal_with_fuel(JsonDoc::well_formed, 2);
        reveal_strlit("type");
        reveal_strlit("request");
        assert("type"@.len() == 4);
        assert("request"@.len() == 7);
        assert(field_members(fields@) =~= seq![
            mem("type"@, JsonDoc::Str(kind@)),
            mem("request"@, request_doc),
        ]);
        lemma_object_well_formed(field_members(fields@));
    }
    object(fields)
}

/// The TCP settings around a header.
pub open spec fn tcp_settings_doc(header: JsonDoc) -> JsonDoc {
    JsonDoc::Object(
        seq![
            mem("header"@, header),
        ],
    )
}

pub(crate) fn tcp_settings(header: Json) -> (j: Json)
    requires
        header@.well_formed(),
    ensures
        j@ == tcp_settings_doc(header@),
        j@.well_formed(),
{
    let ghost header_doc = header@;
    let mut fields: Vec<JsonField> = Vec::new();
    fields.push(field("header", header));
    proof {
        reveal_with_fuel(JsonDoc::well_formed, 2);
        reveal_strlit("header");
        assert("header"@.len() == 6);
        assert(field_members(fields@) =~= seq![
            mem("header"@, header_doc),
        ]);
        lemma_object_well_formed(field_members(fields@));
    }
    object(fields)
}

/// The one-element array of a text, or null where there is none.
pub open spec fn optional_list_doc(value: Option<String>) -> JsonDoc {
    match value {
        Some(s) => JsonDoc::Array(seq![JsonDoc::Str(s@)]),
        None => JsonDoc::Null,
    }
}

/// The disguise request of a TCP row: null unless a path or a host is set.
pub open spec fn tcp_request_of(row: TcpRow) -> JsonDoc {
    if row.request_path is None && row.request_host is None {
        JsonDoc::Null
    } else {
        tcp_request_doc(
            optional_list_doc(row.request_path),
            match row.request_host {
                Some(h) => host_header_doc(JsonDoc::Array(seq![JsonDoc::Str(h@)])),
                None => JsonDoc::Null,
            },
        )
    }
}

/// The `tcpSettings` of a row.
pub open spec fn tcp_doc(row: TcpRow) -> JsonDoc {
    tcp_settings_doc(tcp_header_doc(row.header_type@, tcp_request_of(row)))
}

pub(crate) fn tcp_section(row: &TcpRow) -> (j: Json)
    ensures
        j@ == tcp_doc(*row),
        j@.well_formed(),
{
    let request = if row.request_path.is_none() && row.request_host.is_none() {
        null()
    } else {
        let path = match &row.request_path {
            Some(p) => single(text(p.as_str())),
            None => null(),
        };
        let headers = match &row.request_host {
            Some(h) => host_header(single(text(h.as_str()))),
            None => null(),
        };
        tcp_request(path, headers)
    };
    tcp_settings(tcp_header(row.header_type.as_str(), request))
}

/// The mKCP settings with the given values.
pub open spec fn kcp_settings_doc(
    mtu: i64,
    tti: i64,
    uplink: i64,
    downlink: i64,
    congestion: bool,
    read_buffer: i64,
    write_buffer: i64,
    header_type: Seq<char>,
) -> JsonDoc {
    JsonDoc::Object(
        seq![
            mem("mtu"@, JsonDoc::Int(mtu as int)),
            mem("tti"@, JsonDoc::Int(tti as int)),
            mem("uplinkCapacity"@, JsonDoc::Int(uplink as int)),
            mem("downlinkCapacity"@, JsonDoc::Int(downlink as int)),
            mem("congestion"@, JsonDoc::Bool(congestion)),
            mem("readBufferSize"@, JsonDoc::Int(read_buffer as int)),
            mem("writeBufferSize"@, JsonDoc::Int(write_buffer as int)),
            mem("headerType"@, JsonDoc::Str(header_type)),
        ],
    )
}

pub(crate) fn kcp_settings(
    mtu: i64,
    tti: i64,
    uplink: i64,
    downlink: i64,
    congestion: bool,
    read_buffer: i64,
    write_buffer: i64,
    header_type: &str,
) -> (j: Json)
    ensures
        j@ == kcp_settings_doc(mtu, tti, uplink, downlink, congestion, read_buffer, write_buffer, header_type@),
        j@.well_formed(),
{
    let mut fields: Vec<JsonField> = Vec::new();
    fields.push(field("mtu", number(mtu)));
    fields.push(field("tti", number(tti)));
    fields.push(field("uplinkCapacity", number(uplink)));
    fields.push(field("downlinkCapacity", number(downlink)));
    fields.push(field("congestion", boolean(congestion)));
    fields.push(field("readBufferSize", number(read_buffer)));
    fields.push(field("writeBufferSize", number(write_buffer)));
    fields.push(field("headerType", text(header_type)));
    proof {
        reveal_with_fuel(JsonDoc::well_formed, 2);
        reveal_strlit("mtu");
        reveal_strlit("tti");
        reveal_strlit("uplinkCapacity");
        reveal_strlit("downlinkCapacity");
        reveal_strlit("congestion");
        reveal_strlit("readBufferSize");
        reveal_strlit("writeBufferSize");
        reveal_strlit("headerType");
        assert("mtu"@.len() == 3 && "mtu"@[0] == 'm');
        assert("tti"@.len() == 3 && "tti"@[0] == 't');
        assert("uplinkCapacity"@.len() == 14 && "uplinkCapacity"@[0] == 'u');
        assert("downlinkCapacity"@.len() == 16);
        assert("congestion"@.len() == 10 && "congestion"@[0] == 'c');
        assert("readBufferSize"@.len() == 14 && "readBufferSize"@[0] == 'r');
        assert("writeBufferSize"@.len() == 15);
        assert("headerType"@.len() == 10 && "headerType"@[0] == 'h');
        assert(field_members(fields@) =~= seq![
            mem("mtu"@, JsonDoc::Int(mtu as int)),
            mem("tti"@, JsonDoc::Int(tti as int)),
            mem("uplinkCapacity"@, JsonDoc::Int(uplink as int)),
            mem("downlinkCapacity"@, JsonDoc::Int(downlink as int)),
            mem("congestion"@, JsonDoc::Bool(congestion)),
            mem("readBufferSize"@, JsonDoc::Int(read_buffer as int)),
            mem("writeBufferSize"@, JsonDoc::Int(write_buffer as int)),
            mem("headerType"@, JsonDoc::Str(header_type@)),
        ]);
        lemma_object_well_formed(field_members(fields@));
    }
    object(fields)
}

/// Whether the numbers of an mKCP row fit the engine's fields.
pub open spec fn kcp_numbers_fit(row: KcpRow) -> bool {
    &&& fits_u32(row.mtu)
    &&& fits_u32(row.tti)
    &&& fits_u32(row.uplink_capacity)
    &&& fits_u32(row.downlink_capacity)
    &&& flag_of(row.congestion) is Some
    &&& fits_u32(row.read_buffer_size)
    &&& fits_u32(row.write_buffer_size)
}

/// The `kcpSettings` of a row, or the fault in its numbers.
pub open spec fn kcp_doc(row: KcpRow) -> Result<JsonDoc, SynthesisError> {
    if kcp_numbers_fit(row) {
        Ok(
            kcp_settings_doc(
                row.mtu,
                row.tti,
                row.uplink_capacity,
                row.downlink_capacity,
                flag_of(row.congestion)->0,
                row.read_buffer_size,
                row.write_buffer_size,
                row.header_type@,
            ),
        )
    } else {
        Err(invalid_number(Section::KcpSettings))
    }
}

pub(crate) fn kcp_section(row: &KcpRow) -> (result: Result<Json, SynthesisError>)
    ensures
        match result {
            Ok(j) => kcp_doc(*row) == Ok::<JsonDoc, SynthesisError>(j@) && j@.well_formed(),
            Err(e) => kcp_doc(*row) == Err::<JsonDoc, SynthesisError>(e),
        },
{
    let sizes_fit = is_u32(row.mtu) && is_u32(row.tti) && is_u32(row.uplink_capacity) && is_u32(
        row.downlink_capacity,
    ) && is_u32(row.read_buffer_size) && is_u32(row.write_buffer_size);
    match to_flag(row.congestion) {
        Some(congestion) if sizes_fit => Ok(
            kcp_settings(
                row.mtu,
                row.tti,
                row.uplink_capacity,
                row.downlink_capacity,
                congestion,
                row.read_buffer_size,
                row.write_buffer_size,
                row.header_type.as_str(),
            ),
        ),
        _ => Err(SynthesisError::Config(ConfigError::InvalidNumber(Section::KcpSettings))),
    }
}

/// The HTTP/2 settings with the given values.
pub open spec fn http2_settings_doc(host: JsonDoc, path: Seq<char>, method: Seq<char>) -> JsonDoc {
    JsonDoc::Object(
        seq![
            mem("host"@, host),
            mem("path"@, JsonDoc::Str(path)),
            mem("method"@, JsonDoc::Str(method)),
        ],
    )
}

pub(crate) fn http2_settings(host: Json, path: &str, method: &str) -> (j: Json)
    requires
        host@.well_formed(),
    ensures
        j@ == http2_settings_doc(host@, path@, method@),
        j@.well_formed(),
{
    let ghost host_doc = host@;
    let mut fields: Vec<JsonField> = Vec::new();
    fields.push(field("host", host));
    fields.push(field("path", text(path)));
    fields.push(field("method", text(method)));
    proof {
        reveal_with_fuel(JsonDoc::well_formed, 2);
        reveal_strlit("host");
        reveal_strlit("path");
        reveal_strlit("method");
        assert("host"@.len() == 4 && "host"@[0] == 'h');
        assert("path"@.len() == 4 && "path"@[0] == 'p');
        assert("method"@.len() == 6);
        assert(field_members(fields@) =~= seq![
            mem("host"@, host_doc),
            mem("path"@, JsonDoc::Str(path@)),
            mem("method"@, JsonDoc::Str(method@)),
        ]);
        lemma_object_well_formed(field_members(fields@));
    }
    object(fields)
}

/// The `httpSettings` of a row: the path defaults to `/`, the method to `PUT`.
pub open spec fn http2_doc(row: Http2Row) -> JsonDoc {
    http2_settings_doc(
        JsonDoc::Array(seq![JsonDoc::Str(row.host@)]),
        match row.path {
            Some(p) => p@,
            None => "/"@,
        },
        match row.method {
            Some(m) => m@,
            None => "PUT"@,
        },
    )
}

pub(crate) fn http2_section(row: &Http2Row) -> (j: Json)
    ensures
        j@ == http2_doc(*row),
        j@.well_formed(),
{
    let path: &str = match &row.path {
        Some(p) => p.as_str(),
        None => "/",
    };
    let method: &str = match &row.method {
        Some(m) => m.as_str(),
        None => "PUT",
    };
    http2_settings(single(text(row.host.as_str())), path, method)
}

/// The QUIC settings with the given values.
pub open spec fn quic_settings_doc(
    security: Seq<char>,
    key: Seq<char>,
    header_type: Seq<char>,
) -> JsonDoc {
    JsonDoc::Object(
        seq![
            mem("security"@, JsonDoc::Str(security)),
            mem("key"@, JsonDoc::Str(key)),
            mem("headerType"@, JsonDoc::Str(header_type)),
        ],
    )
}

pub(crate) fn quic_settings(security: &str, key: &str, header_type: &str) -> (j: Json)
    ensures
        j@ == quic_settings_doc(security@, key@, header_type@),
        j@.well_formed(),
{
    let mut fields: Vec<JsonField> = Vec::new();
    fields.push(field("security", text(security)));
    fields.push(field("key", text(key)));
    fields.push(field("headerType", text(header_type)));
    proof {
        reveal_with_fuel(JsonDoc::well_formed, 2);
        reveal_strlit("security");
        reveal_strlit("key");
        reveal_strlit("headerType");
        assert("security"@.len() == 8);
        assert("key"@.len() == 3);
        assert("headerType"@.len() == 10);
        assert(field_members(fields@) =~= seq![
            mem("security"@, JsonDoc::Str(security@)),
            mem("key"@, JsonDoc::Str(key@)),
            mem("headerType"@, JsonDoc::Str(header_type@)),
        ]);
        lemma_object_well_formed(field_members(fields@));
    }
    object(fields)
}

/// The `quicSettings` of a row.
pub open spec fn quic_doc(row: QuicRow) -> JsonDoc {
    quic_settings_doc(row.security@, row.key@, row.header_type@)
}

pub(crate) fn quic_section(row: &QuicRow) -> (j: Json)
    ensures
        j@ == quic_doc(*row),
        j@.well_formed(),
{
    quic_settings(row.security.as_str(), row.key.as_str(), row.header_type.as_str())
}

/// The gRPC settings for a service.
pub open spec fn grpc_settings_doc(service_name: Seq<char>) -> JsonDoc {
    JsonDoc::Object(
        seq![
            mem("serviceName"@, JsonDoc::Str(service_name)),
        ],
    )
}

pub(crate) fn grpc_settings(service_name: &str) -> (j: Json)
    ensures
        j@ == grpc_settings_doc(service_name@),
        j@.well_formed(),
{
    let mut fields: Vec<JsonField> = Vec::new();
    fields.push(field("serviceName", text(service_name)));
    proof {
        reveal_with_fuel(JsonDoc::well_formed, 2);
        reveal_strlit("serviceName");
        assert("serviceName"@.len() == 11);
        assert(field_members(fields@) =~= seq![
            mem("serviceName"@, JsonDoc::Str(service_name@)),
        ]);
        lemma_object_well_formed(field_members(fields@));
    }
    object(fields)
}

/// The `grpcSettings` of a row.
pub open spec fn grpc_doc(row: GrpcRow) -> JsonDoc {
    grpc_settings_doc(row.service_name@)
}

pub(crate) fn grpc_section(row: &GrpcRow) -> (j: Json)
    ensures
        j@ == grpc_doc(*row),
        j@.well_formed(),
{
    grpc_settings(row.service_name.as_str())
}

/// The headers of a WebSocket handshake.
pub open spec fn ws_headers_doc(host: Seq<char>) -> JsonDoc {
    JsonDoc::Object(
        seq![
            mem("host"@, JsonDoc::Str(host)),
        ],
    )
}

pub(crate) fn ws_headers(host: &str) -> (j: Json)
    ensures
        j@ == ws_headers_doc(host@),
        j@.well_formed(),
{
    let mut fields: Vec<JsonField> = Vec::new();
    fields.push(field("host", text(host)));
    proof {
        reveal_with_fuel(JsonDoc::well_formed, 2);
        reveal_strlit("host");
        assert("host"@.len() == 4);
        assert(field_members(fields@) =~= seq![
            mem("host"@, JsonDoc::Str(host@)),
        ]);
        lemma_object_well_formed(field_members(fields@));
    }
    object(fields)
}

/// The WebSocket settings with the given values.
pub open spec fn ws_settings_doc(path: Seq<char>, headers: JsonDoc) -> JsonDoc {
    JsonDoc::Object(
        seq![
            mem("path"@, JsonDoc::Str(path)),
            mem("headers"@, headers),
        ],
    )
}

pub(crate) fn ws_settings(path: &str, headers: Json) -> (j: Json)
    requires
        headers@.well_formed(),
    ensures
        j@ == ws_settings_doc(path@, headers@),
        j@.well_formed(),
{
    let ghost headers_doc = headers@;
    let mut fields: Vec<JsonField> = Vec::new();
    fields.push(field("path", text(path)));
    fields.push(field("headers", headers));
    proof {
        reveal_with_fuel(JsonDoc::well_formed, 2);
        reveal_strlit("path");
        reveal_strlit("headers");
        assert("path"@.len() == 4);
        assert("headers"@.len() == 7);
        assert(field_members(fields@) =~= seq![
            mem("path"@, JsonDoc::Str(path@)),
            mem("headers"@, headers_doc),
        ]);
        lemma_object_well_formed(field_members(fields@));
    }
    object(fields)
}

/// The `wsSettings` of a row.
pub open spec fn ws_doc(row: WsRow) -> JsonDoc {
    ws_settings_doc(row.path@, ws_headers_doc(row.host@))
}

pub(crate) fn ws_section(row: &WsRow) -> (j: Json)
    ensures
        j@ == ws_doc(*row),
        j@.well_formed(),
{
    ws_settings(row.path.as_str(), ws_headers(row.host.as_str()))
}

/// The TLS settings with the given values.
pub open spec fn tls_settings_doc(
    allow_insecure: bool,
    server_name: Seq<char>,
    fingerprint: Seq<char>,
) -> JsonDoc {
    JsonDoc::Object(
        seq![
            mem("allowInsecure"@, JsonDoc::Bool(allow_insecure)),
            mem("serverName"@, JsonDoc::Str(server_name)),
            mem("fingerprint"@, JsonDoc::Str(fingerprint)),
        ],
    )
}

pub(crate) fn tls_settings(allow_insecure: bool, server_name: &str, fingerprint: &str) -> (j: Json)
    ensures
        j@ == tls_settings_doc(allow_insecure, server_name@, fingerprint@),
        j@.well_formed(),
{
    let mut fields: Vec<JsonField> = Vec::new();
    fields.push(field("allowInsecure", boolean(allow_insecure)));
    fields.push(field("serverName", text(server_name)));
    fields.push(field("fingerprint", text(fingerprint)));
    proof {
        reveal_with_fuel(JsonDoc::well_formed, 2);
        reveal_strlit("allowInsecure");
        reveal_strlit("serverName");
        reveal_strlit("fingerprint");
        assert("allowInsecure"@.len() == 13);
        assert("serverName"@.len() == 10);
        assert("fingerprint"@.len() == 11);
        assert(field_members(fields@) =~= seq![
            mem("allowInsecure"@, JsonDoc::Bool(allow_insecure)),
            mem("serverName"@, JsonDoc::Str(server_name@)),
            mem("fingerprint"@, JsonDoc::Str(fingerprint@)),
        ]);
        lemma_object_well_formed(field_members(fields@));
    }
    object(fields)
}

/// The `tlsSettings` of a row, or the fault in its flag.
pub open spec fn tls_doc(row: TlsRow) -> Result<JsonDoc, SynthesisError> {
    match flag_of(row.allow_insecure) {
        Some(allow) => Ok(tls_settings_doc(allow, row.server_name@, row.fingerprint@)),
        None => Err(invalid_number(Section::TlsSettings)),
    }
}

pub(crate) fn tls_section(row: &TlsRow) -> (result: Result<Json, SynthesisError>)
    ensures
        match result {
            Ok(j) => tls_doc(*row) == Ok::<JsonDoc, SynthesisError>(j@) && j@.well_formed(),
            Err(e) => tls_doc(*row) == Err::<JsonDoc, SynthesisError>(e),
        },
{
    match to_flag(row.allow_insecure) {
        Some(allow) => Ok(tls_settings(allow, row.server_name.as_str(), row.fingerprint.as_str())),
        None => Err(SynthesisError::Config(ConfigError::InvalidNumber(Section::TlsSettings))),
    }
}

/// What a transport's member of the stream settings holds: the settings
/// where the network selects that transport, null otherwise.
pub open spec fn slot(network: Seq<char>, name: Seq<char>, transport: JsonDoc) -> JsonDoc {
    if network == name {
        transport
    } else {
        JsonDoc::Null
    }
}

/// The members of the stream settings. The TLS member is left out where the
/// endpoint has no TLS settings.
pub open spec fn stream_members(
    network: Seq<char>,
    transport: JsonDoc,
    tls: Option<JsonDoc>,
    security: Seq<char>,
) -> Seq<JsonMember> {
    seq![
        mem("tcpSettings"@, slot(network, "tcp"@, transport)),
        mem("kcpSettings"@, slot(network, "kcp"@, transport)),
        mem("httpSettings"@, slot(network, "http"@, transport)),
        mem("quicSettings"@, slot(network, "quic"@, transport)),
        mem("dsSettings"@, JsonDoc::Null),
        mem("grpcSettings"@, slot(network, "grpc"@, transport)),
        mem("wsSettings"@, slot(network, "ws"@, transport)),
        mem("realitySettings"@, JsonDoc::Null),
        mem("xtlsSettings"@, JsonDoc::Null),
    ] + (match tls {
        Some(t) => seq![mem("tlsSettings"@, t)],
        None => Seq::empty(),
    }) + seq![mem("security"@, JsonDoc::Str(security)), mem("network"@, JsonDoc::Str(network))]
}

/// The `streamSettings` of an outbound.
pub open spec fn stream_doc(
    network: Seq<char>,
    transport: JsonDoc,
    tls: Option<JsonDoc>,
    security: Seq<char>,
) -> JsonDoc {
    JsonDoc::Object(stream_members(network, transport, tls, security))
}

/// The settings of the six transports, null but for the one in use.
pub struct TransportSlots {
    pub tcp: Json,
    pub kcp: Json,
    pub http: Json,
    pub quic: Json,
    pub grpc: Json,
    pub ws: Json,
}

/// Puts the transport settings into the member that the network names.
fn place(network: &str, transport: Json) -> (slots: TransportSlots)
    ensures
        slots.tcp@ == slot(network@, "tcp"@, transport@),
        slots.kcp@ == slot(network@, "kcp"@, transport@),
        slots.http@ == slot(network@, "http"@, transport@),
        slots.quic@ == slot(network@, "quic"@, transport@),
        slots.grpc@ == slot(network@, "grpc"@, transport@),
        slots.ws@ == slot(network@, "ws"@, transport@),
{
    proof {
        reveal_strlit("tcp");
        reveal_strlit("kcp");
        reveal_strlit("http");
        reveal_strlit("quic");
        reveal_strlit("grpc");
        reveal_strlit("ws");
        assert("tcp"@.len() == 3 && "tcp"@[0] == 't');
        assert("kcp"@.len() == 3 && "kcp"@[0] == 'k');
        assert("http"@.len() == 4 && "http"@[0] == 'h');
        assert("quic"@.len() == 4 && "quic"@[0] == 'q');
        assert("grpc"@.len() == 4 && "grpc"@[0] == 'g');
        assert("ws"@.len() == 2);
    }
    if same_text(network, "tcp") {
        TransportSlots { tcp: transport, kcp: null(), http: null(), quic: null(), grpc: null(), ws: null() }
    } else if same_text(network, "kcp") {
        TransportSlots { tcp: null(), kcp: transport, http: null(), quic: null(), grpc: null(), ws: null() }
    } else if same_text(network, "http") {
        TransportSlots { tcp: null(), kcp: null(), http: transport, quic: null(), grpc: null(), ws: null() }
    } else if same_text(network, "quic") {
        TransportSlots { tcp: null(), kcp: null(), http: null(), quic: transport, grpc: null(), ws: null() }
    } else if same_text(network, "grpc") {
        TransportSlots { tcp: null(), kcp: null(), http: null(), quic: null(), grpc: transport, ws: null() }
    } else if same_text(network, "ws") {
        TransportSlots { tcp: null(), kcp: null(), http: null(), quic: null(), grpc: null(), ws: transport }
    } else {
        TransportSlots { tcp: null(), kcp: null(), http: null(), quic: null(), grpc: null(), ws: null() }
    }
}

pub(crate) fn stream_settings(
    network: &str,
    transport: Json,
    tls: Option<Json>,
    security: &str,
) -> (j:
    Json)
    requires
        transport@.well_formed(),
        tls matches Some(t) ==> t@.well_formed(),
    ensures
        j@ == stream_doc(
            network@,
            transport@,
            option_doc(tls),
            security@,
        ),
        j@.well_formed(),
{
    let ghost transport_doc = transport@;
    let ghost tls_doc = option_doc(tls);
    let slots = place(network, transport);
    let mut fields: Vec<JsonField> = Vec::new();
    fields.push(field("tcpSettings", slots.tcp));
    fields.push(field("kcpSettings", slots.kcp));
    fields.push(field("httpSettings", slots.http));
    fields.push(field("quicSettings", slots.quic));
    fields.push(field("dsSettings", null()));
    fields.push(field("grpcSettings", slots.grpc));
    fields.push(field("wsSettings", slots.ws));
    fields.push(field("realitySettings", null()));
    fields.push(field("xtlsSettings", null()));
    proof {
        reveal_with_fuel(JsonDoc::well_formed, 2);
        reveal_strlit("tcpSettings");
        reveal_strlit("kcpSettings");
        reveal_strlit("httpSettings");
        reveal_strlit("quicSettings");
        reveal_strlit("dsSettings");
        reveal_strlit("grpcSettings");
        reveal_strlit("wsSettings");
        reveal_strlit("realitySettings");
        reveal_strlit("xtlsSettings");
        reveal_strlit("tlsSettings");
        reveal_strlit("security");
        reveal_strlit("network");
        assert("tcpSettings"@.len() == 11 && "tcpSettings"@[0] == 't' && "tcpSettings"@[1] == 'c');
        assert("kcpSettings"@.len() == 11 && "kcpSettings"@[0] == 'k');
        assert("httpSettings"@.len() == 12 && "httpSettings"@[0] == 'h');
        assert("quicSettings"@.len() == 12 && "quicSettings"@[0] == 'q');
        assert("dsSettings"@.len() == 10 && "dsSettings"@[0] == 'd');
        assert("grpcSettings"@.len() == 12 && "grpcSettings"@[0] == 'g');
        assert("wsSettings"@.len() == 10 && "wsSettings"@[0] == 'w');
        assert("realitySettings"@.len() == 15);
        assert("xtlsSettings"@.len() == 12 && "xtlsSettings"@[0] == 'x');
        assert("tlsSettings"@.len() == 11 && "tlsSettings"@[0] == 't' && "tlsSettings"@[1] == 'l');
        assert("security"@.len() == 8);
        assert("network"@.len() == 7);
        assert(field_members(fields@) =~= seq![
            mem("tcpSettings"@, slot(network@, "tcp"@, transport_doc)),
            mem("kcpSettings"@, slot(network@, "kcp"@, transport_doc)),
            mem("httpSettings"@, slot(network@, "http"@, transport_doc)),
            mem("quicSettings"@, slot(network@, "quic"@, transport_doc)),
            mem("dsSettings"@, JsonDoc::Null),
            mem("grpcSettings"@, slot(network@, "grpc"@, transport_doc)),
            mem("wsSettings"@, slot(network@, "ws"@, transport_doc)),
            mem("realitySettings"@, JsonDoc::Null),
            mem("xtlsSettings"@, JsonDoc::Null),
        ]);
    }
    let ghost head = field_members(fields@);
    match tls {
        Some(t) => {
            fields.push(field("tlsSettings", t));
            assert(field_members(fields@) =~= head + seq![mem("tlsSettings"@, tls_doc->0)]);
        },
        None => {
            assert(field_members(fields@) =~= head + Seq::<JsonMember>::empty());
        },
    }
    let ghost middle = field_members(fields@);
    fields.push(field("security", text(security)));
    fields.push(field("network", text(network)));
    proof {
        assert(field_members(fields@) =~= middle + seq![
            mem("security"@, JsonDoc::Str(security@)),
            mem("network"@, JsonDoc::Str(network@)),
        ]);
        assert(field_members(fields@) == stream_members(
            network@,
            transport_doc,
            tls_doc,
            security@,
        ));
        lemma_object_well_formed(field_members(fields@));
    }
    object(fields)
}

} // verus!
