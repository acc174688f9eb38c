//! The outbounds: the primary one of the endpoint's protocol, and the two
//! fixed ones, `direct` and `block`.

use crate::config::error::{invalid_number, ConfigError, Section, SynthesisError};
use crate::config::sections::{fits_u16, fits_u32, flag_of, is_u16, is_u32, list, to_flag};
use crate::config::store::{OutboundRow, ServerRow, ShadowsocksRow, VmessUserRow, VnextRow};
use crate::config::stream::{stream_doc, stream_settings};
use crate::json::{
    all_well_formed, boolean, docs_of, field, field_members, lemma_object_well_formed, mem, null,
    number, object, text, Json, JsonDoc, JsonField,
};
use vstd::prelude::*;
use vstd::string::*;

verus! {


/// The multiplexing settings with the given values.
pub open spec fn mux_settings_doc(enabled: bool, concurrency: i64) -> JsonDoc {
    JsonDoc::Object(
        seq![
            mem("enabled"@, JsonDoc::Bool(enabled)),
            mem("concurrency"@, JsonDoc::Int(concurrency as int)),
        ],
    )
}

pub(crate) fn mux_settings(enabled: bool, concurrency: i64) -> (j: Json)
    ensures
        j@ == mux_settings_doc(enabled, concurrency),
        j@.well_formed(),
{
    let mut fields: Vec<JsonField> = Vec::new();
    fields.push(field("enabled", boolean(enabled)));
    fields.push(field("concurrency", number(concurrency)));
    proof {
        reveal_with_fuel(JsonDoc::well_formed, 2);
        reveal_strlit("enabled");
        reveal_strlit("concurrency");
        assert("enabled"@.len() == 7);
        assert("concurrency"@.len() == 11);
        assert(field_members(fields@) =~= seq![
            mem("enabled"@, JsonDoc::Bool(enabled)),
            mem("concurrency"@, JsonDoc::Int(concurrency as int)),
        ]);
        lemma_object_well_formed(field_members(fields@));
    }
    object(fields)
}

/// The `mux` of an outbound row, or the fault in its numbers.
pub open spec fn mux_doc(row: OutboundRow) -> Result<JsonDoc, SynthesisError> {
    match flag_of(row.mux_enabled) {
        Some(enabled) if fits_u32(row.mux_concurrency) => Ok(
            mux_settings_doc(enabled, row.mux_concurrency),
        ),
        _ => Err(invalid_number(Section::Outbounds)),
    }
}

pub(crate) fn mux_section(row: &OutboundRow) -> (result: Result<Json, SynthesisError>)
    ensures
        match result {
            Ok(j) => mux_doc(*row) == Ok::<JsonDoc, SynthesisError>(j@) && j@.well_formed(),
            Err(e) => mux_doc(*row) == Err::<JsonDoc, SynthesisError>(e),
        },
{
    let fits = is_u32(row.mux_concurrency);
    match to_flag(row.mux_enabled) {
        Some(enabled) if fits => Ok(mux_settings(enabled, row.mux_concurrency)),
        _ => Err(SynthesisError::Config(ConfigError::InvalidNumber(Section::Outbounds))),
    }
}

/// A vmess user with the given values.
pub open spec fn vmess_user_doc(
    id: Seq<char>,
    alter_id: i64,
    level: i64,
    security: Seq<char>,
) -> JsonDoc {
    JsonDoc::Object(
        seq![
            mem("id"@, JsonDoc::Str(id)),
            mem("alterId"@, JsonDoc::Int(alter_id as int)),
            mem("level"@, JsonDoc::Int(level as int)),
            mem("security"@, JsonDoc::Str(security)),
        ],
    )
}

pub(crate) fn vmess_user(id: &str, alter_id: i64, level: i64, security: &str) -> (j: Json)
    ensures
        j@ == vmess_user_doc(id@, alter_id, level, security@),
        j@.well_formed(),
{
    let mut fields: Vec<JsonField> = Vec::new();
    fields.push(field("id", text(id)));
    fields.push(field("alterId", number(alter_id)));
    fields.push(field("level", number(level)));
    fields.push(field("security", text(security)));
    proof {
        reveal_with_fuel(JsonDoc::well_formed, 2);
        reveal_strlit("id");
        reveal_strlit("alterId");
        reveal_strlit("level");
        reveal_strlit("security");
        assert("id"@.len() == 2);
        assert("alterId"@.len() == 7);
        assert("level"@.len() == 5);
        assert("security"@.len() == 8);
        assert(field_members(fields@) =~= seq![
            mem("id"@, JsonDoc::Str(id@)),
            mem("alterId"@, JsonDoc::Int(alter_id as int)),
            mem("level"@, JsonDoc::Int(level as int)),
            mem("security"@, JsonDoc::Str(security@)),
        ]);
        lemma_object_well_formed(field_members(fields@));
    }
    object(fields)
}

/// The level of a user: 0 where none is stored.
pub open spec fn user_level(row: VmessUserRow) -> i64 {
    match row.level {
        Some(l) => l,
        None => 0,
    }
}

/// One user of an upstream server, or the fault in its numbers.
pub open spec fn user_doc(row: VmessUserRow) -> Result<JsonDoc, SynthesisError> {
    if fits_u32(row.alter_id) && fits_u32(user_level(row)) {
        Ok(vmess_user_doc(row.uuid@, row.alter_id, user_level(row), row.security@))
    } else {
        Err(invalid_number(Section::VmessUsers))
    }
}

pub(crate) fn user_section(row: &VmessUserRow) -> (result: Result<Json, SynthesisError>)
    ensures
        match result {
            Ok(j) => user_doc(*row) == Ok::<JsonDoc, SynthesisError>(j@) && j@.well_formed(),
            Err(e) => user_doc(*row) == Err::<JsonDoc, SynthesisError>(e),
        },
{
    let level: i64 = match row.level {
        Some(l) => l,
        None => 0,
    };
    if is_u32(row.alter_id) && is_u32(level) {
        Ok(vmess_user(row.uuid.as_str(), row.alter_id, level, row.security.as_str()))
    } else {
        Err(SynthesisError::Config(ConfigError::InvalidNumber(Section::VmessUsers)))
    }
}

/// The users of the upstream server `vnext_id`, in storage order, or the
/// first fault among them.
pub open spec fn users_of(users: Seq<VmessUserRow>, vnext_id: Seq<char>) -> Result<
    Seq<JsonDoc>,
    SynthesisError,
>
    decreases users.len(),
{
    if users.len() == 0 {
        Ok(Seq::empty())
    } else {
        match users_of(users.drop_last(), vnext_id) {
            Err(e) => Err(e),
            Ok(docs) => if users.last().vnext_id@ != vnext_id {
                Ok(docs)
            } else {
                match user_doc(users.last()) {
                    Err(e) => Err(e),
                    Ok(d) => Ok(docs.push(d)),
                }
            },
        }
    }
}

pub(crate) fn collect_users(users: &Vec<VmessUserRow>, vnext_id: &String) -> (result: Result<
    Vec<Json>,
    SynthesisError,
>)
    ensures
        match result {
            Ok(items) => users_of(users@, vnext_id@) == Ok::<Seq<JsonDoc>, SynthesisError>(
                docs_of(items@),
            ) && all_well_formed(docs_of(items@)),
            Err(e) => users_of(users@, vnext_id@) == Err::<Seq<JsonDoc>, SynthesisError>(e),
        },
{
    let mut items: Vec<Json> = Vec::new();
    let mut i: usize = 0;
    proof {
        assert(users@.take(0) =~= Seq::<VmessUserRow>::empty());
        assert(docs_of(items@) =~= Seq::<JsonDoc>::empty());
    }
    while i < users.len()
        invariant
            i <= users.len(),
            users_of(users@.take(i as int), vnext_id@) == Ok::<Seq<JsonDoc>, SynthesisError>(
                docs_of(items@),
            ),
            all_well_formed(docs_of(items@)),
        decreases users.len() - i,
    {
        let ghost before = docs_of(items@);
        proof {
            assert(users@.take(i + 1).drop_last() =~= users@.take(i as int));
        }
        if users[i].vnext_id == *vnext_id {
            match user_section(&users[i]) {
                Ok(j) => {
                    items.push(j);
                    assert(docs_of(items@) =~= before.push(j@));
                },
                Err(e) => {
                    proof {
                        lemma_users_fault_stays(users@, vnext_id@, i + 1, e);
                    }
                    return Err(e);
                },
            }
        }
        i += 1;
    }
    assert(users@.take(users.len() as int) =~= users@);
    Ok(items)
}

/// A fault met in a prefix of the rows is the fault of the whole.
proof fn lemma_users_fault_stays(
    users: Seq<VmessUserRow>,
    vnext_id: Seq<char>,
    n: int,
    e: SynthesisError,
)
    requires
        0 <= n <= users.len(),
        users_of(users.take(n), vnext_id) == Err::<Seq<JsonDoc>, SynthesisError>(e),
    ensures
        users_of(users, vnext_id) == Err::<Seq<JsonDoc>, SynthesisError>(e),
    decreases users.len(),
{
    if n == users.len() {
        assert(users.take(n) =~= users);
    } else {
        assert(users.drop_last().take(n) =~= users.take(n));
        lemma_users_fault_stays(users.drop_last(), vnext_id, n, e);
    }
}

/// An upstream vmess server with the given values.
pub open spec fn vnext_server_doc(address: Seq<char>, port: i64, users: JsonDoc) -> JsonDoc {
    JsonDoc::Object(
        seq![
            mem("address"@, JsonDoc::Str(address)),
            mem("port"@, JsonDoc::Int(port as int)),
            mem("users"@, users),
        ],
    )
}

pub(crate) fn vnext_server(address: &str, port: i64, users: Json) -> (j: Json)
    requires
        users@.well_formed(),
    ensures
        j@ == vnext_server_doc(address@, port, users@),
        j@.well_formed(),
{
    let ghost users_doc = users@;
    let mut fields: Vec<JsonField> = Vec::new();
    fields.push(field("address", text(address)));
    fields.push(field("port", number(port)));
    fields.push(field("users", users));
    proof {
        reveal_with_fuel(JsonDoc::well_formed, 2);
        reveal_strlit("address");
        reveal_strlit("port");
        reveal_strlit("users");
        assert("address"@.len() == 7);
        assert("port"@.len() == 4);
        assert("users"@.len() == 5);
        assert(field_members(fields@) =~= seq![
            mem("address"@, JsonDoc::Str(address@)),
            mem("port"@, JsonDoc::Int(port as int)),
            mem("users"@, users_doc),
        ]);
        lemma_object_well_formed(field_members(fields@));
    }
    object(fields)
}

/// One upstream server with its users, or the first fault: in its port, then
/// among its users.
pub open spec fn vnext_doc(users: Seq<VmessUserRow>, row: VnextRow) -> Result<
    JsonDoc,
    SynthesisError,
> {
    if !fits_u16(row.port) {
        Err(invalid_number(Section::VmessVnext))
    } else {
        match users_of(users, row.vnext_id@) {
            Err(e) => Err(e),
            Ok(docs) => Ok(vnext_server_doc(row.address@, row.port, JsonDoc::Array(docs))),
        }
    }
}

pub(crate) fn vnext_section(users: &Vec<VmessUserRow>, row: &VnextRow) -> (result: Result<
    Json,
    SynthesisError,
>)
    ensures
        match result {
            Ok(j) => vnext_doc(users@, *row) == Ok::<JsonDoc, SynthesisError>(j@)
                && j@.well_formed(),
            Err(e) => vnext_doc(users@, *row) == Err::<JsonDoc, SynthesisError>(e),
        },
{
    if !is_u16(row.port) {
        return Err(SynthesisError::Config(ConfigError::InvalidNumber(Section::VmessVnext)));
    }
    match collect_users(users, &row.vnext_id) {
        Err(e) => Err(e),
        Ok(items) => Ok(vnext_server(row.address.as_str(), row.port, list(items))),
    }
}

/// The upstream servers of an endpoint, in storage order, or the first fault
/// among them.
pub open spec fn vnext_of(
    servers: Seq<VnextRow>,
    users: Seq<VmessUserRow>,
    endpoint: Seq<char>,
) -> Result<Seq<JsonDoc>, SynthesisError>
    decreases servers.len(),
{
    if servers.len() == 0 {
        Ok(Seq::empty())
    } else {
        match vnext_of(servers.drop_last(), users, endpoint) {
            Err(e) => Err(e),
            Ok(docs) => if servers.last().endpoint_id@ != endpoint {
                Ok(docs)
            } else {
                match vnext_doc(users, servers.last()) {
                    Err(e) => Err(e),
                    Ok(d) => Ok(docs.push(d)),
                }
            },
        }
    }
}

pub(crate) fn collect_vnext(
    servers: &Vec<VnextRow>,
    users: &Vec<VmessUserRow>,
    endpoint: &String,
) -> (result:
    Result<Vec<Json>, SynthesisError>)
    ensures
        match result {
            Ok(items) => vnext_of(servers@, users@, endpoint@) == Ok::<
                Seq<JsonDoc>,
                SynthesisError,
            >(docs_of(items@)) && all_well_formed(docs_of(items@)),
            Err(e) => vnext_of(servers@, users@, endpoint@) == Err::<Seq<JsonDoc>, SynthesisError>(
                e,
            ),
        },
{
    let mut items: Vec<Json> = Vec::new();
    let mut i: usize = 0;
    proof {
        assert(servers@.take(0) =~= Seq::<VnextRow>::empty());
        assert(docs_of(items@) =~= Seq::<JsonDoc>::empty());
    }
    while i < servers.len()
        invariant
            i <= servers.len(),
            vnext_of(servers@.take(i as int), users@, endpoint@) == Ok::<
                Seq<JsonDoc>,
                SynthesisError,
            >(docs_of(items@)),
            all_well_formed(docs_of(items@)),
        decreases servers.len() - i,
    {
        let ghost before = docs_of(items@);
        proof {
            assert(servers@.take(i + 1).drop_last() =~= servers@.take(i as int));
        }
        if servers[i].endpoint_id == *endpoint {
            match vnext_section(users, &servers[i]) {
                Ok(j) => {
                    items.push(j);
                    assert(docs_of(items@) =~= before.push(j@));
                },
                Err(e) => {
                    proof {
                        lemma_vnext_fault_stays(servers@, users@, endpoint@, i + 1, e);
                    }
                    return Err(e);
                },
            }
        }
        i += 1;
    }
    assert(servers@.take(servers.len() as int) =~= servers@);
    Ok(items)
}

proof fn lemma_vnext_fault_stays(
    servers: Seq<VnextRow>,
    users: Seq<VmessUserRow>,
    endpoint: Seq<char>,
    n: int,
    e: SynthesisError,
)
    requires
        0 <= n <= servers.len(),
        vnext_of(servers.take(n), users, endpoint) == Err::<Seq<JsonDoc>, SynthesisError>(e),
    ensures
        vnext_of(servers, users, endpoint) == Err::<Seq<JsonDoc>, SynthesisError>(e),
    decreases servers.len(),
{
    if n == servers.len() {
        assert(servers.take(n) =~= servers);
    } else {
        assert(servers.drop_last().take(n) =~= servers.take(n));
        lemma_vnext_fault_stays(servers.drop_last(), users, endpoint, n, e);
    }
}

/// A shadowsocks server with the given values.
pub open spec fn shadowsocks_server_doc(
    method: Seq<char>,
    password: Seq<char>,
    level: i64,
    email: JsonDoc,
    address: Seq<char>,
    port: i64,
) -> JsonDoc {
    JsonDoc::Object(
        seq![
            mem("method"@, JsonDoc::Str(method)),
            mem("password"@, JsonDoc::Str(password)),
            mem("level"@, JsonDoc::Int(level as int)),
            mem("email"@, email),
            mem("address"@, JsonDoc::Str(address)),
            mem("port"@, JsonDoc::Int(port as int)),
        ],
    )
}

pub(crate) fn shadowsocks_server(
    method: &str,
    password: &str,
    level: i64,
    email: Json,
    address: &str,
    port: i64,
) -> (j: Json)
    requires
        email@.well_formed(),
    ensures
        j@ == shadowsocks_server_doc(method@, password@, level, email@, address@, port),
        j@.well_formed(),
{
    let ghost email_doc = email@;
    let mut fields: Vec<JsonField> = Vec::new();
    fields.push(field("method", text(method)));
    fields.push(field("password", text(password)));
    fields.push(field("level", number(level)));
    fields.push(field("email", email));
    fields.push(field("address", text(address)));
    fields.push(field("port", number(port)));
    proof {
        reveal_with_fuel(JsonDoc::well_formed, 2);
        reveal_strlit("method");
        reveal_strlit("password");
        reveal_strlit("level");
        reveal_strlit("email");
        reveal_strlit("address");
        reveal_strlit("port");
        assert("method"@.len() == 6);
        assert("password"@.len() == 8);
        assert("level"@.len() == 5 && "level"@[0] == 'l');
        assert("email"@.len() == 5 && "email"@[0] == 'e');
        assert("address"@.len() == 7);
        assert("port"@.len() == 4);
        assert(field_members(fields@) =~= seq![
            mem("method"@, JsonDoc::Str(method@)),
            mem("password"@, JsonDoc::Str(password@)),
            mem("level"@, JsonDoc::Int(level as int)),
            mem("email"@, email_doc),
            mem("address"@, JsonDoc::Str(address@)),
            mem("port"@, JsonDoc::Int(port as int)),
        ]);
        lemma_object_well_formed(field_members(fields@));
    }
    object(fields)
}

/// The `email` of a server: null where none is stored.
pub open spec fn email_doc(email: Option<String>) -> JsonDoc {
    match email {
        Some(e) => JsonDoc::Str(e@),
        None => JsonDoc::Null,
    }
}

/// One shadowsocks server, or the fault in its numbers.
pub open spec fn shadowsocks_doc(row: ShadowsocksRow) -> Result<JsonDoc, SynthesisError> {
    if fits_u32(row.level) && fits_u16(row.port) {
        Ok(
            shadowsocks_server_doc(
                row.method@,
                row.password@,
                row.level,
                email_doc(row.email),
                row.address@,
                row.port,
            ),
        )
    } else {
        Err(invalid_number(Section::Shadowsocks))
    }
}

pub(crate) fn shadowsocks_section(row: &ShadowsocksRow) -> (result: Result<Json, SynthesisError>)
    ensures
        match result {
            Ok(j) => shadowsocks_doc(*row) == Ok::<JsonDoc, SynthesisError>(j@)
                && j@.well_formed(),
            Err(e) => shadowsocks_doc(*row) == Err::<JsonDoc, SynthesisError>(e),
        },
{
    if is_u32(row.level) && is_u16(row.port) {
        let email = match &row.email {
            Some(e) => text(e.as_str()),
            None => null(),
        };
        Ok(
            shadowsocks_server(
                row.method.as_str(),
                row.password.as_str(),
                row.level,
                email,
                row.address.as_str(),
                row.port,
            ),
        )
    } else {
        Err(SynthesisError::Config(ConfigError::InvalidNumber(Section::Shadowsocks)))
    }
}

/// The shadowsocks servers of an endpoint, in storage order, or the first
/// fault among them.
pub open spec fn shadowsocks_of(servers: Seq<ShadowsocksRow>, endpoint: Seq<char>) -> Result<
    Seq<JsonDoc>,
    SynthesisError,
>
    decreases servers.len(),
{
    if servers.len() == 0 {
        Ok(Seq::empty())
    } else {
        match shadowsocks_of(servers.drop_last(), endpoint) {
            Err(e) => Err(e),
            Ok(docs) => if servers.last().endpoint_id@ != endpoint {
                Ok(docs)
            } else {
                match shadowsocks_doc(servers.last()) {
                    Err(e) => Err(e),
                    Ok(d) => Ok(docs.push(d)),
                }
            },
        }
    }
}

pub(crate) fn collect_shadowsocks(
    servers: &Vec<ShadowsocksRow>,
    endpoint: &String,
) -> (result: Result<
    Vec<Json>,
    SynthesisError,
>)
    ensures
        match result {
            Ok(items) => shadowsocks_of(servers@, endpoint@) == Ok::<Seq<JsonDoc>, SynthesisError>(
                docs_of(items@),
            ) && all_well_formed(docs_of(items@)),
            Err(e) => shadowsocks_of(servers@, endpoint@) == Err::<Seq<JsonDoc>, SynthesisError>(
                e,
            ),
        },
{
    let mut items: Vec<Json> = Vec::new();
    let mut i: usize = 0;
    proof {
        assert(servers@.take(0) =~= Seq::<ShadowsocksRow>::empty());
        assert(docs_of(items@) =~= Seq::<JsonDoc>::empty());
    }
    while i < servers.len()
        invariant
            i <= servers.len(),
            shadowsocks_of(servers@.take(i as int), endpoint@) == Ok::<
                Seq<JsonDoc>,
                SynthesisError,
            >(docs_of(items@)),
            all_well_formed(docs_of(items@)),
        decreases servers.len() - i,
    {
        let ghost before = docs_of(items@);
        proof {
            assert(servers@.take(i + 1).drop_last() =~= servers@.take(i as int));
        }
        if servers[i].endpoint_id == *endpoint {
            match shadowsocks_section(&servers[i]) {
                Ok(j) => {
                    items.push(j);
                    assert(docs_of(items@) =~= before.push(j@));
                },
                Err(e) => {
                    proof {
                        lemma_shadowsocks_fault_stays(servers@, endpoint@, i + 1, e);
                    }
                    return Err(e);
                },
            }
        }
        i += 1;
    }
    assert(servers@.take(servers.len() as int) =~= servers@);
    Ok(items)
}

proof fn lemma_shadowsocks_fault_stays(
    servers: Seq<ShadowsocksRow>,
    endpoint: Seq<char>,
    n: int,
    e: SynthesisError,
)
    requires
        0 <= n <= servers.len(),
        shadowsocks_of(servers.take(n), endpoint) == Err::<Seq<JsonDoc>, SynthesisError>(e),
    ensures
        shadowsocks_of(servers, endpoint) == Err::<Seq<JsonDoc>, SynthesisError>(e),
    decreases servers.len(),
{
    if n == servers.len() {
        assert(servers.take(n) =~= servers);
    } else {
        assert(servers.drop_last().take(n) =~= servers.take(n));
        lemma_shadowsocks_fault_stays(servers.drop_last(), endpoint, n, e);
    }
}

/// A server known by its address alone.
pub open spec fn plain_server_doc(address: Seq<char>, port: i64) -> JsonDoc {
    JsonDoc::Object(
        seq![mem("address"@, JsonDoc::Str(address)), mem("port"@, JsonDoc::Int(port as int))],
    )
}

pub(crate) fn plain_server(address: &str, port: i64) -> (j: Json)
    ensures
        j@ == plain_server_doc(address@, port),
        j@.well_formed(),
{
    let mut fields: Vec<JsonField> = Vec::new();
    fields.push(field("address", text(address)));
    fields.push(field("port", number(port)));
    proof {
        reveal_with_fuel(JsonDoc::well_formed, 2);
        reveal_strlit("address");
        reveal_strlit("port");
        assert("address"@.len() == 7);
        assert("port"@.len() == 4);
        assert(field_members(fields@) =~= seq![
            mem("address"@, JsonDoc::Str(address@)),
            mem("port"@, JsonDoc::Int(port as int)),
        ]);
        lemma_object_well_formed(field_members(fields@));
    }
    object(fields)
}

/// One server of a trojan or hysteria2 endpoint, or the fault in its port,
/// reported for the given section.
pub open spec fn server_doc(row: ServerRow, section: Section) -> Result<JsonDoc, SynthesisError> {
    if fits_u16(row.port) {
        Ok(plain_server_doc(row.address@, row.port))
    } else {
        Err(invalid_number(section))
    }
}

/// The servers of an endpoint, in storage order, or the first fault among
/// them.
pub open spec fn servers_of(rows: Seq<ServerRow>, endpoint: Seq<char>, section: Section) -> Result<
    Seq<JsonDoc>,
    SynthesisError,
>
    decreases rows.len(),
{
    if rows.len() == 0 {
        Ok(Seq::empty())
    } else {
        match servers_of(rows.drop_last(), endpoint, section) {
            Err(e) => Err(e),
            Ok(docs) => if rows.last().endpoint_id@ != endpoint {
                Ok(docs)
            } else {
                match server_doc(rows.last(), section) {
                    Err(e) => Err(e),
                    Ok(d) => Ok(docs.push(d)),
                }
            },
        }
    }
}

pub(crate) fn collect_servers(
    rows: &Vec<ServerRow>,
    endpoint: &String,
    section: Section,
) -> (result:
    Result<Vec<Json>, SynthesisError>)
    ensures
        match result {
            Ok(items) => servers_of(rows@, endpoint@, section) == Ok::<
                Seq<JsonDoc>,
                SynthesisError,
            >(docs_of(items@)) && all_well_formed(docs_of(items@)),
            Err(e) => servers_of(rows@, endpoint@, section) == Err::<Seq<JsonDoc>, SynthesisError>(
                e,
            ),
        },
{
    let mut items: Vec<Json> = Vec::new();
    let mut i: usize = 0;
    proof {
        assert(rows@.take(0) =~= Seq::<ServerRow>::empty());
        assert(docs_of(items@) =~= Seq::<JsonDoc>::empty());
    }
    while i < rows.len()
        invariant
            i <= rows.len(),
            servers_of(rows@.take(i as int), endpoint@, section) == Ok::<
                Seq<JsonDoc>,
                SynthesisError,
            >(docs_of(items@)),
            all_well_formed(docs_of(items@)),
        decreases rows.len() - i,
    {
        let ghost before = docs_of(items@);
        proof {
            assert(rows@.take(i + 1).drop_last() =~= rows@.take(i as int));
        }
        if rows[i].endpoint_id == *endpoint {
            if is_u16(rows[i].port) {
                let j = plain_server(rows[i].address.as_str(), rows[i].port);
                items.push(j);
                assert(docs_of(items@) =~= before.push(j@));
            } else {
                let e = SynthesisError::Config(ConfigError::InvalidNumber(section));
                proof {
                    lemma_servers_fault_stays(rows@, endpoint@, section, i + 1, e);
                }
                return Err(e);
            }
        }
        i += 1;
    }
    assert(rows@.take(rows.len() as int) =~= rows@);
    Ok(items)
}

proof fn lemma_servers_fault_stays(
    rows: Seq<ServerRow>,
    endpoint: Seq<char>,
    section: Section,
    n: int,
    e: SynthesisError,
)
    requires
        0 <= n <= rows.len(),
        servers_of(rows.take(n), endpoint, section) == Err::<Seq<JsonDoc>, SynthesisError>(e),
    ensures
        servers_of(rows, endpoint, section) == Err::<Seq<JsonDoc>, SynthesisError>(e),
    decreases rows.len(),
{
    if n == rows.len() {
        assert(rows.take(n) =~= rows);
    } else {
        assert(rows.drop_last().take(n) =~= rows.take(n));
        lemma_servers_fault_stays(rows.drop_last(), endpoint, section, n, e);
    }
}

/// The settings of an outbound: one member per protocol family, null but for the one in use.
pub open spec fn outbound_settings_doc(
    vnext: JsonDoc,
    servers: JsonDoc,
    freedom: JsonDoc,
    blackhole: JsonDoc,
) -> JsonDoc {
    JsonDoc::Object(
        seq![
            mem("vnext"@, vnext),
            mem("servers"@, servers),
            mem("freedom"@, freedom),
            mem("blackhole"@, blackhole),
        ],
    )
}

pub(crate) fn outbound_settings(
    vnext: Json,
    servers: Json,
    freedom: Json,
    blackhole: Json,
) -> (j: Json)
    requires
        vnext@.well_formed(),
        servers@.well_formed(),
        freedom@.well_formed(),
        blackhole@.well_formed(),
    ensures
        j@ == outbound_settings_doc(vnext@, servers@, freedom@, blackhole@),
        j@.well_formed(),
{
    let ghost vnext_doc = vnext@;
    let ghost servers_doc = servers@;
    let ghost freedom_doc = freedom@;
    let ghost blackhole_doc = blackhole@;
    let mut fields: Vec<JsonField> = Vec::new();
    fields.push(field("vnext", vnext));
    fields.push(field("servers", servers));
    fields.push(field("freedom", freedom));
    fields.push(field("blackhole", blackhole));
    proof {
        reveal_with_fuel(JsonDoc::well_formed, 2);
        reveal_strlit("vnext");
        reveal_strlit("servers");
        reveal_strlit("freedom");
        reveal_strlit("blackhole");
        assert("vnext"@.len() == 5);
        assert("servers"@.len() == 7 && "servers"@[0] == 's');
        assert("freedom"@.len() == 7 && "freedom"@[0] == 'f');
        assert("blackhole"@.len() == 9);
        assert(field_members(fields@) =~= seq![
            mem("vnext"@, vnext_doc),
            mem("servers"@, servers_doc),
            mem("freedom"@, freedom_doc),
            mem("blackhole"@, blackhole_doc),
        ]);
        lemma_object_well_formed(field_members(fields@));
    }
    object(fields)
}

/// An outbound, from its parts.
pub open spec fn outbound_doc(
    mux: JsonDoc,
    protocol: Seq<char>,
    stream: JsonDoc,
    tag: Seq<char>,
    settings: JsonDoc,
) -> JsonDoc {
    JsonDoc::Object(
        seq![
            mem("mux"@, mux),
            mem("protocol"@, JsonDoc::Str(protocol)),
            mem("streamSettings"@, stream),
            mem("tag"@, JsonDoc::Str(tag)),
            mem("settings"@, settings),
        ],
    )
}

pub(crate) fn outbound(
    mux: Json,
    protocol: &str,
    stream: Json,
    tag: &str,
    settings: Json,
) -> (j: Json)
    requires
        mux@.well_formed(),
        stream@.well_formed(),
        settings@.well_formed(),
    ensures
        j@ == outbound_doc(mux@, protocol@, stream@, tag@, settings@),
        j@.well_formed(),
{
    let ghost mux_doc = mux@;
    let ghost stream_doc = stream@;
    let ghost settings_doc = settings@;
    let mut fields: Vec<JsonField> = Vec::new();
    fields.push(field("mux", mux));
    fields.push(field("protocol", text(protocol)));
    fields.push(field("streamSettings", stream));
    fields.push(field("tag", text(tag)));
    fields.push(field("settings", settings));
    proof {
        reveal_with_fuel(JsonDoc::well_formed, 2);
        reveal_strlit("mux");
        reveal_strlit("protocol");
        reveal_strlit("streamSettings");
        reveal_strlit("tag");
        reveal_strlit("settings");
        assert("mux"@.len() == 3 && "mux"@[0] == 'm');
        assert("protocol"@.len() == 8 && "protocol"@[0] == 'p');
        assert("streamSettings"@.len() == 14);
        assert("tag"@.len() == 3 && "tag"@[0] == 't');
        assert("settings"@.len() == 8 && "settings"@[0] == 's');
        assert(field_members(fields@) =~= seq![
            mem("mux"@, mux_doc),
            mem("protocol"@, JsonDoc::Str(protocol@)),
            mem("streamSettings"@, stream_doc),
            mem("tag"@, JsonDoc::Str(tag@)),
            mem("settings"@, settings_doc),
        ]);
        lemma_object_well_formed(field_members(fields@));
    }
    object(fields)
}

/// The settings of the `freedom` protocol.
pub open spec fn freedom_settings_doc() -> JsonDoc {
    JsonDoc::Object(
        seq![
            mem("domainStrategy"@, JsonDoc::Str("UseIP"@)),
            mem("userLevel"@, JsonDoc::Int(0)),
        ],
    )
}

pub(crate) fn freedom_settings() -> (j: Json)
    ensures
        j@ == freedom_settings_doc(),
        j@.well_formed(),
{
    let mut fields: Vec<JsonField> = Vec::new();
    fields.push(field("domainStrategy", text("UseIP")));
    fields.push(field("userLevel", number(0)));
    proof {
        reveal_with_fuel(JsonDoc::well_formed, 2);
        reveal_strlit("domainStrategy");
        reveal_strlit("userLevel");
        assert("domainStrategy"@.len() == 14);
        assert("userLevel"@.len() == 9);
        assert(field_members(fields@) =~= seq![
            mem("domainStrategy"@, JsonDoc::Str("UseIP"@)),
            mem("userLevel"@, JsonDoc::Int(0)),
        ]);
        lemma_object_well_formed(field_members(fields@));
    }
    object(fields)
}

/// The response of the `blackhole` protocol: none.
pub open spec fn blackhole_response_doc() -> JsonDoc {
    JsonDoc::Object(
        seq![
            mem("type"@, JsonDoc::Str("none"@)),
        ],
    )
}

pub(crate) fn blackhole_response() -> (j: Json)
    ensures
        j@ == blackhole_response_doc(),
        j@.well_formed(),
{
    let mut fields: Vec<JsonField> = Vec::new();
    fields.push(field("type", text("none")));
    proof {
        reveal_with_fuel(JsonDoc::well_formed, 2);
        reveal_strlit("type");
        assert("type"@.len() == 4);
        assert(field_members(fields@) =~= seq![
            mem("type"@, JsonDoc::Str("none"@)),
        ]);
        lemma_object_well_formed(field_members(fields@));
    }
    object(fields)
}

/// The settings of the `blackhole` protocol.
pub open spec fn blackhole_settings_doc() -> JsonDoc {
    JsonDoc::Object(
        seq![
            mem("response"@, blackhole_response_doc()),
        ],
    )
}

pub(crate) fn blackhole_settings() -> (j: Json)
    ensures
        j@ == blackhole_settings_doc(),
        j@.well_formed(),
{
    let mut fields: Vec<JsonField> = Vec::new();
    fields.push(field("response", blackhole_response()));
    proof {
        reveal_with_fuel(JsonDoc::well_formed, 2);
        reveal_strlit("response");
        assert("response"@.len() == 8);
        assert(field_members(fields@) =~= seq![
            mem("response"@, blackhole_response_doc()),
        ]);
        lemma_object_well_formed(field_members(fields@));
    }
    object(fields)
}

/// The stream settings of the fixed outbounds: plain TCP.
pub open spec fn plain_stream_doc() -> JsonDoc {
    stream_doc("tcp"@, JsonDoc::Null, None, "none"@)
}

/// The `direct` outbound: traffic passes through unchanged.
pub open spec fn direct_outbound_doc() -> JsonDoc {
    outbound_doc(
        mux_settings_doc(false, 1),
        "freedom"@,
        plain_stream_doc(),
        "direct"@,
        outbound_settings_doc(
            JsonDoc::Null,
            JsonDoc::Null,
            freedom_settings_doc(),
            JsonDoc::Null,
        ),
    )
}

pub(crate) fn direct_outbound() -> (j: Json)
    ensures
        j@ == direct_outbound_doc(),
        j@.well_formed(),
{
    outbound(
        mux_settings(false, 1),
        "freedom",
        stream_settings("tcp", null(), None, "none"),
        "direct",
        outbound_settings(null(), null(), freedom_settings(), null()),
    )
}

/// The `block` outbound: traffic is discarded.
pub open spec fn block_outbound_doc() -> JsonDoc {
    outbound_doc(
        mux_settings_doc(false, 1),
        "blackhole"@,
        plain_stream_doc(),
        "block"@,
        outbound_settings_doc(
            JsonDoc::Null,
            JsonDoc::Null,
            JsonDoc::Null,
            blackhole_settings_doc(),
        ),
    )
}

pub(crate) fn block_outbound() -> (j: Json)
    ensures
        j@ == block_outbound_doc(),
        j@.well_formed(),
{
    outbound(
        mux_settings(false, 1),
        "blackhole",
        stream_settings("tcp", null(), None, "none"),
        "block",
        outbound_settings(null(), null(), null(), blackhole_settings()),
    )
}

} // verus!
