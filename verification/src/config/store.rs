//! The stored settings that the synthesizer reads: one vector per table, the
//! rows in storage order.

use vstd::prelude::*;
use vstd::string::*;

verus! {

/// The group that a user can reach.
pub struct UserGroupRow {
    pub user_id: String,
    pub group_id: String,
}

/// A remote proxy server entry.
pub struct EndpointRow {
    pub endpoint_id: String,
    pub group_id: String,
    pub remark: String,
    pub active: bool,
}

/// Log paths and level of a user.
pub struct LogRow {
    pub user_id: String,
    pub error_path: String,
    pub log_level: String,
    pub access_path: String,
}

/// A local listener that the engine exposes.
pub struct InboundRow {
    pub user_id: String,
    pub listen: String,
    pub port: i64,
    pub protocol: String,
    pub tag: String,
    pub strategy: Option<String>,
    pub refresh: Option<i64>,
    pub concurrency: Option<i64>,
}

/// The outbound of an endpoint.
pub struct OutboundRow {
    pub endpoint_id: String,
    pub mux_enabled: i64,
    pub mux_concurrency: i64,
    pub protocol: String,
    pub tag: String,
}

/// Transport and security of an endpoint's stream.
pub struct StreamRow {
    pub endpoint_id: String,
    pub security: String,
    pub network: String,
}

/// The TCP settings of an endpoint.
pub struct TcpRow {
    pub endpoint_id: String,
    pub header_type: String,
    pub request_path: Option<String>,
    pub request_host: Option<String>,
}

/// The mKCP settings of an endpoint.
pub struct KcpRow {
    pub endpoint_id: String,
    pub mtu: i64,
    pub tti: i64,
    pub uplink_capacity: i64,
    pub downlink_capacity: i64,
    pub congestion: i64,
    pub read_buffer_size: i64,
    pub write_buffer_size: i64,
    pub header_type: String,
}

/// The HTTP/2 settings of an endpoint.
pub struct Http2Row {
    pub endpoint_id: String,
    pub host: String,
    pub path: Option<String>,
    pub method: Option<String>,
}

/// The QUIC settings of an endpoint.
pub struct QuicRow {
    pub endpoint_id: String,
    pub security: String,
    pub key: String,
    pub header_type: String,
}

/// The gRPC settings of an endpoint.
pub struct GrpcRow {
    pub endpoint_id: String,
    pub service_name: String,
}

/// The WebSocket settings of an endpoint.
pub struct WsRow {
    pub endpoint_id: String,
    pub host: String,
    pub path: String,
}

/// The TLS settings of an endpoint.
pub struct TlsRow {
    pub endpoint_id: String,
    pub allow_insecure: i64,
    pub server_name: String,
    pub fingerprint: String,
}

/// An upstream vmess server of an endpoint.
pub struct VnextRow {
    pub vnext_id: String,
    pub endpoint_id: String,
    pub address: String,
    pub port: i64,
}

/// A user credential of an upstream vmess server.
pub struct VmessUserRow {
    pub vnext_id: String,
    pub uuid: String,
    pub alter_id: i64,
    pub level: Option<i64>,
    pub security: String,
}

/// A shadowsocks server of an endpoint.
pub struct ShadowsocksRow {
    pub endpoint_id: String,
    pub method: String,
    pub password: String,
    pub level: i64,
    pub email: Option<String>,
    pub address: String,
    pub port: i64,
}

/// A server of a trojan or hysteria2 endpoint.
pub struct ServerRow {
    pub endpoint_id: String,
    pub address: String,
    pub port: i64,
}

/// The DNS overrides of a user, as stored JSON text.
pub struct DnsRow {
    pub user_id: String,
    pub value: String,
}

/// Everything the synthesizer reads.
pub struct SettingsStore {
    pub user_groups: Vec<UserGroupRow>,
    pub endpoints: Vec<EndpointRow>,
    pub logs: Vec<LogRow>,
    pub inbounds: Vec<InboundRow>,
    pub outbounds: Vec<OutboundRow>,
    pub streams: Vec<StreamRow>,
    pub tcp: Vec<TcpRow>,
    pub kcp: Vec<KcpRow>,
    pub http2: Vec<Http2Row>,
    pub quic: Vec<QuicRow>,
    pub grpc: Vec<GrpcRow>,
    pub ws: Vec<WsRow>,
    pub tls: Vec<TlsRow>,
    pub vnext: Vec<VnextRow>,
    pub vmess_users: Vec<VmessUserRow>,
    pub shadowsocks: Vec<ShadowsocksRow>,
    pub trojan: Vec<ServerRow>,
    pub hysteria2: Vec<ServerRow>,
    pub dns: Vec<DnsRow>,
}

/// A row that is looked up by a text key.
pub trait Keyed {
    /// The key of the row.
    spec fn key(&self) -> Seq<char>;

    /// Tests the key of the row.
    fn has_key(&self, key: &String) -> (b: bool)
        ensures
            b == (self.key() == key@),
    ;
}

impl Keyed for UserGroupRow {
    open spec fn key(&self) -> Seq<char> {
        self.user_id@
    }

    fn has_key(&self, key: &String) -> (b: bool) {
        self.user_id == *key
    }
}

impl Keyed for LogRow {
    open spec fn key(&self) -> Seq<char> {
        self.user_id@
    }

    fn has_key(&self, key: &String) -> (b: bool) {
        self.user_id == *key
    }
}

impl Keyed for InboundRow {
    open spec fn key(&self) -> Seq<char> {
        self.user_id@
    }

    fn has_key(&self, key: &String) -> (b: bool) {
        self.user_id == *key
    }
}

impl Keyed for OutboundRow {
    open spec fn key(&self) -> Seq<char> {
        self.endpoint_id@
    }

    fn has_key(&self, key: &String) -> (b: bool) {
        self.endpoint_id == *key
    }
}

impl Keyed for StreamRow {
    open spec fn key(&self) -> Seq<char> {
        self.endpoint_id@
    }

    fn has_key(&self, key: &String) -> (b: bool) {
        self.endpoint_id == *key
    }
}

impl Keyed for TcpRow {
    open spec fn key(&self) -> Seq<char> {
        self.endpoint_id@
    }

    fn has_key(&self, key: &String) -> (b: bool) {
        self.endpoint_id == *key
    }
}

impl Keyed for KcpRow {
    open spec fn key(&self) -> Seq<char> {
        self.endpoint_id@
    }

    fn has_key(&self, key: &String) -> (b: bool) {
        self.endpoint_id == *key
    }
}

impl Keyed for Http2Row {
    open spec fn key(&self) -> Seq<char> {
        self.endpoint_id@
    }

    fn has_key(&self, key: &String) -> (b: bool) {
        self.endpoint_id == *key
    }
}

impl Keyed for QuicRow {
    open spec fn key(&self) -> Seq<char> {
        self.endpoint_id@
    }

    fn has_key(&self, key: &String) -> (b: bool) {
        self.endpoint_id == *key
    }
}

impl Keyed for GrpcRow {
    open spec fn key(&self) -> Seq<char> {
        self.endpoint_id@
    }

    fn has_key(&self, key: &String) -> (b: bool) {
        self.endpoint_id == *key
    }
}

impl Keyed for WsRow {
    open spec fn key(&self) -> Seq<char> {
        self.endpoint_id@
    }

    fn has_key(&self, key: &String) -> (b: bool) {
        self.endpoint_id == *key
    }
}

impl Keyed for TlsRow {
    open spec fn key(&self) -> Seq<char> {
        self.endpoint_id@
    }

    fn has_key(&self, key: &String) -> (b: bool) {
        self.endpoint_id == *key
    }
}

impl Keyed for VnextRow {
    open spec fn key(&self) -> Seq<char> {
        self.endpoint_id@
    }

    fn has_key(&self, key: &String) -> (b: bool) {
        self.endpoint_id == *key
    }
}

impl Keyed for VmessUserRow {
    open spec fn key(&self) -> Seq<char> {
        self.vnext_id@
    }

    fn has_key(&self, key: &String) -> (b: bool) {
        self.vnext_id == *key
    }
}

impl Keyed for ShadowsocksRow {
    open spec fn key(&self) -> Seq<char> {
        self.endpoint_id@
    }

    fn has_key(&self, key: &String) -> (b: bool) {
        self.endpoint_id == *key
    }
}

impl Keyed for ServerRow {
    open spec fn key(&self) -> Seq<char> {
        self.endpoint_id@
    }

    fn has_key(&self, key: &String) -> (b: bool) {
        self.endpoint_id == *key
    }
}

impl Keyed for DnsRow {
    open spec fn key(&self) -> Seq<char> {
        self.user_id@
    }

    fn has_key(&self, key: &String) -> (b: bool) {
        self.user_id == *key
    }
}

/// The index of the first row with the given key.
pub open spec fn first_with_key<T: Keyed>(rows: Seq<T>, key: Seq<char>) -> Option<int>
    decreases rows.len(),
{
    if rows.len() == 0 {
        None
    } else {
        match first_with_key(rows.drop_last(), key) {
            Some(i) => Some(i),
            None => if rows.last().key() == key {
                Some(rows.len() - 1)
            } else {
                None
            },
        }
    }
}

/// What `first_with_key` finds is the least index whose row has the key.
pub proof fn lemma_first_with_key<T: Keyed>(rows: Seq<T>, key: Seq<char>)
    ensures
        match first_with_key(rows, key) {
            Some(i) => {
                &&& 0 <= i < rows.len()
                &&& rows[i].key() == key
                &&& forall|j: int| 0 <= j < i ==> (#[trigger] rows[j]).key() != key
            },
            None => forall|j: int| 0 <= j < rows.len() ==> (#[trigger] rows[j]).key() != key,
        },
    decreases rows.len(),
{
    if rows.len() > 0 {
        lemma_first_with_key(rows.drop_last(), key);
        match first_with_key(rows.drop_last(), key) {
            Some(i) => {
                assert(rows.drop_last()[i] == rows[i]);
                assert forall|j: int| 0 <= j < i implies (#[trigger] rows[j]).key() != key by {
                    assert(rows.drop_last()[j] == rows[j]);
                }
            },
            None => {
                assert forall|j: int| 0 <= j < rows.len() - 1 implies (#[trigger] rows[j]).key()
                    != key by {
                    assert(rows.drop_last()[j] == rows[j]);
                }
            },
        }
    }
}

/// Finds the first row with the given key.
pub fn find_first<T: Keyed>(rows: &Vec<T>, key: &String) -> (found: Option<usize>)
    ensures
        match found {
            Some(i) => first_with_key(rows@, key@) == Some(i as int) && i < rows.len(),
            None => first_with_key(rows@, key@) is None,
        },
{
    let mut i: usize = 0;
    assert(rows@.take(0) =~= Seq::<T>::empty());
    while i < rows.len()
        invariant
            i <= rows.len(),
            first_with_key(rows@.take(i as int), key@) is None,
        decreases rows.len() - i,
    {
        assert(rows@.take(i + 1).drop_last() =~= rows@.take(i as int));
        if rows[i].has_key(key) {
            proof {
                lemma_first_extends(rows@, key@, i as int);
            }
            return Some(i);
        }
        i += 1;
    }
    assert(rows@.take(rows.len() as int) =~= rows@);
    None
}

/// A match found in a prefix is the match of the whole.
proof fn lemma_first_extends<T: Keyed>(rows: Seq<T>, key: Seq<char>, i: int)
    requires
        0 <= i < rows.len(),
        first_with_key(rows.take(i + 1), key) == Some(i),
    ensures
        first_with_key(rows, key) == Some(i),
    decreases rows.len(),
{
    if rows.len() == i + 1 {
        assert(rows.take(i + 1) =~= rows);
    } else {
        assert(rows.drop_last().take(i + 1) =~= rows.take(i + 1));
        lemma_first_extends(rows.drop_last(), key, i);
    }
}

} // verus!
