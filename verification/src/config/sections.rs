//! The sections of the configuration that depend on the user alone, and the
//! fixed ones.

use crate::config::error::{invalid_number, ConfigError, Section, SynthesisError};
use crate::config::store::{InboundRow, LogRow};
use crate::json::{
    all_well_formed, array, boolean, docs_of, field, field_members, lemma_array_well_formed,
    lemma_object_well_formed, mem, number, object, text, Json, JsonDoc, JsonField, JsonMember,
};
use crate::text::same_text;
use vstd::prelude::*;
use vstd::string::*;

verus! {

/// Whether a stored number fits an unsigned 16-bit field (a port).
pub open spec fn fits_u16(x: i64) -> bool {
    0 <= x <= 0xffff
}

/// Whether a stored number fits an unsigned 32-bit field.
pub open spec fn fits_u32(x: i64) -> bool {
    0 <= x <= 0xffff_ffff
}

/// The truth value that a stored flag stands for: 0 or 1, nothing else.
pub open spec fn flag_of(x: i64) -> Option<bool> {
    if x == 0 {
        Some(false)
    } else if x == 1 {
        Some(true)
    } else {
        None
    }
}

pub(crate) fn is_u16(x: i64) -> (b: bool)
    ensures
        b == fits_u16(x),
{
    0 <= x && x <= 0xffff
}

pub(crate) fn is_u32(x: i64) -> (b: bool)
    ensures
        b == fits_u32(x),
{
    0 <= x && x <= 0xffff_ffff
}

pub(crate) fn to_flag(x: i64) -> (b: Option<bool>)
    ensures
        b == flag_of(x),
{
    if x == 0 {
        Some(false)
    } else if x == 1 {
        Some(true)
    } else {
        None
    }
}

/// The array with the one given element.
pub(crate) fn single(item: Json) -> (j: Json)
    requires
        item@.well_formed(),
    ensures
        j@ == JsonDoc::Array(seq![item@]),
        j@.well_formed(),
{
    let ghost doc = item@;
    let mut items: Vec<Json> = Vec::new();
    items.push(item);
    proof {
        assert(docs_of(items@) =~= seq![doc]);
        lemma_array_well_formed(docs_of(items@));
    }
    array(items)
}

/// The array of the given documents.
pub(crate) fn list(items: Vec<Json>) -> (j: Json)
    requires
        all_well_formed(docs_of(items@)),
    ensures
        j@ == JsonDoc::Array(docs_of(items@)),
        j@.well_formed(),
{
    proof {
        lemma_array_well_formed(docs_of(items@));
    }
    array(items)
}


/// The `log` section: where the engine writes its logs, and how much.
pub open spec fn log_doc(row: LogRow) -> JsonDoc {
    log_paths_doc(row.error_path@, row.log_level@, row.access_path@)
}

pub(crate) fn log_section(row: &LogRow) -> (j: Json)
    ensures
        j@ == log_doc(*row),
        j@.well_formed(),
{
    log_paths(row.error_path.as_str(), row.log_level.as_str(), row.access_path.as_str())
}

/// The `log` section with the given paths and level.
pub open spec fn log_paths_doc(
    error: Seq<char>,
    loglevel: Seq<char>,
    access: Seq<char>,
) -> JsonDoc {
    JsonDoc::Object(
        seq![
            mem("error"@, JsonDoc::Str(error)),
            mem("loglevel"@, JsonDoc::Str(loglevel)),
            mem("access"@, JsonDoc::Str(access)),
        ],
    )
}

pub(crate) fn log_paths(error: &str, loglevel: &str, access: &str) -> (j: Json)
    ensures
        j@ == log_paths_doc(error@, loglevel@, access@),
        j@.well_formed(),
{
    let mut fields: Vec<JsonField> = Vec::new();
    fields.push(field("error", text(error)));
    fields.push(field("loglevel", text(loglevel)));
    fields.push(field("access", text(access)));
    proof {
        reveal_with_fuel(JsonDoc::well_formed, 2);
        reveal_strlit("error");
        reveal_strlit("loglevel");
        reveal_strlit("access");
        assert("error"@.len() == 5);
        assert("loglevel"@.len() == 8);
        assert("access"@.len() == 6);
        assert(field_members(fields@) =~= seq![
            mem("error"@, JsonDoc::Str(error@)),
            mem("loglevel"@, JsonDoc::Str(loglevel@)),
            mem("access"@, JsonDoc::Str(access@)),
        ]);
        lemma_object_well_formed(field_members(fields@));
    }
    object(fields)
}

/// The port allocation of an inbound.
pub open spec fn allocate_doc(strategy: Seq<char>, refresh: i64, concurrency: i64) -> JsonDoc {
    JsonDoc::Object(
        seq![
            mem("strategy"@, JsonDoc::Str(strategy)),
            mem("refresh"@, JsonDoc::Int(refresh as int)),
            mem("concurrency"@, JsonDoc::Int(concurrency as int)),
        ],
    )
}

pub(crate) fn allocate_section(strategy: &str, refresh: i64, concurrency: i64) -> (j: Json)
    ensures
        j@ == allocate_doc(strategy@, refresh, concurrency),
        j@.well_formed(),
{
    let mut fields: Vec<JsonField> = Vec::new();
    fields.push(field("strategy", text(strategy)));
    fields.push(field("refresh", number(refresh)));
    fields.push(field("concurrency", number(concurrency)));
    proof {
        reveal_with_fuel(JsonDoc::well_formed, 2);
        reveal_strlit("strategy");
        reveal_strlit("refresh");
        reveal_strlit("concurrency");
        assert("strategy"@.len() == 8);
        assert("refresh"@.len() == 7);
        assert("concurrency"@.len() == 11);
        assert(field_members(fields@) =~= seq![
            mem("strategy"@, JsonDoc::Str(strategy@)),
            mem("refresh"@, JsonDoc::Int(refresh as int)),
            mem("concurrency"@, JsonDoc::Int(concurrency as int)),
        ]);
        lemma_object_well_formed(field_members(fields@));
    }
    object(fields)
}

/// The settings of a transparent-proxy inbound: it forwards to the loopback address.
pub open spec fn loopback_settings_doc() -> JsonDoc {
    JsonDoc::Object(
        seq![
            mem("address"@, JsonDoc::Str("127.0.0.1"@)),
        ],
    )
}

pub(crate) fn loopback_settings() -> (j: Json)
    ensures
        j@ == loopback_settings_doc(),
        j@.well_formed(),
{
    let mut fields: Vec<JsonField> = Vec::new();
    fields.push(field("address", text("127.0.0.1")));
    proof {
        reveal_with_fuel(JsonDoc::well_formed, 2);
        reveal_strlit("address");
        assert("address"@.len() == 7);
        assert(field_members(fields@) =~= seq![
            mem("address"@, JsonDoc::Str("127.0.0.1"@)),
        ]);
        lemma_object_well_formed(field_members(fields@));
    }
    object(fields)
}

/// Whether an inbound row carries a port allocation: all three columns set.
pub open spec fn has_allocate(row: InboundRow) -> bool {
    row.strategy is Some && row.refresh is Some && row.concurrency is Some
}

/// The members of an inbound: the listener itself, then the allocation and
/// the protocol settings where there are any.
pub open spec fn inbound_members(row: InboundRow) -> Seq<JsonMember> {
    seq![
        mem("listen"@, JsonDoc::Str(row.listen@)),
        mem("port"@, JsonDoc::Int(row.port as int)),
        mem("protocol"@, JsonDoc::Str(row.protocol@)),
        mem("tag"@, JsonDoc::Str(row.tag@)),
    ] + (if has_allocate(row) {
        seq![
            mem(
                "allocate"@,
                allocate_doc(row.strategy->0@, row.refresh->0, row.concurrency->0),
            ),
        ]
    } else {
        Seq::empty()
    }) + (if row.protocol@ == "dokodemo-door"@ {
        seq![mem("settings"@, loopback_settings_doc())]
    } else {
        Seq::empty()
    })
}

/// One element of `inbounds`, or the fault in its numbers: the port must fit
/// 16 bits, refresh and concurrency of an allocation 32 bits.
pub open spec fn inbound_doc(row: InboundRow) -> Result<JsonDoc, SynthesisError> {
    if !fits_u16(row.port) || (has_allocate(row) && !(fits_u32(row.refresh->0) && fits_u32(
        row.concurrency->0,
    ))) {
        Err(invalid_number(Section::Inbounds))
    } else {
        Ok(JsonDoc::Object(inbound_members(row)))
    }
}

pub(crate) fn inbound_section(row: &InboundRow) -> (result: Result<Json, SynthesisError>)
    ensures
        match result {
            Ok(j) => inbound_doc(*row) == Ok::<JsonDoc, SynthesisError>(j@) && j@.well_formed(),
            Err(e) => inbound_doc(*row) == Err::<JsonDoc, SynthesisError>(e),
        },
{
    if !is_u16(row.port) {
        return Err(SynthesisError::Config(ConfigError::InvalidNumber(Section::Inbounds)));
    }
    let mut fields: Vec<JsonField> = Vec::new();
    fields.push(field("listen", text(row.listen.as_str())));
    fields.push(field("port", number(row.port)));
    fields.push(field("protocol", text(row.protocol.as_str())));
    fields.push(field("tag", text(row.tag.as_str())));
    proof {
        reveal_with_fuel(JsonDoc::well_formed, 2);
        reveal_strlit("listen");
        reveal_strlit("port");
        reveal_strlit("protocol");
        reveal_strlit("tag");
        reveal_strlit("allocate");
        reveal_strlit("settings");
        assert("listen"@.len() == 6);
        assert("port"@.len() == 4);
        assert("protocol"@.len() == 8 && "protocol"@[0] == 'p');
        assert("tag"@.len() == 3);
        assert("allocate"@.len() == 8 && "allocate"@[0] == 'a');
        assert("settings"@.len() == 8 && "settings"@[0] == 's');
        assert(field_members(fields@) =~= seq![
            mem("listen"@, JsonDoc::Str(row.listen@)),
            mem("port"@, JsonDoc::Int(row.port as int)),
            mem("protocol"@, JsonDoc::Str(row.protocol@)),
            mem("tag"@, JsonDoc::Str(row.tag@)),
        ]);
    }
    let ghost base = field_members(fields@);
    match (&row.strategy, row.refresh, row.concurrency) {
        (Some(strategy), Some(refresh), Some(concurrency)) => {
            if !is_u32(refresh) || !is_u32(concurrency) {
                return Err(SynthesisError::Config(ConfigError::InvalidNumber(Section::Inbounds)));
            }
            fields.push(
                field("allocate", allocate_section(strategy.as_str(), refresh, concurrency)),
            );
            assert(field_members(fields@) =~= base + seq![
                mem("allocate"@, allocate_doc(strategy@, refresh, concurrency)),
            ]);
        },
        _ => {
            assert(field_members(fields@) =~= base + Seq::<JsonMember>::empty());
        },
    }
    let ghost with_allocate = field_members(fields@);
    if same_text(row.protocol.as_str(), "dokodemo-door") {
        fields.push(field("settings", loopback_settings()));
        assert(field_members(fields@) =~= with_allocate + seq![
            mem("settings"@, loopback_settings_doc()),
        ]);
    } else {
        assert(field_members(fields@) =~= with_allocate + Seq::<JsonMember>::empty());
    }
    proof {
        assert(field_members(fields@) == inbound_members(*row));
        lemma_object_well_formed(field_members(fields@));
    }
    Ok(object(fields))
}

/// An object without members, as `stats` and `transport` are.
pub open spec fn empty_object_doc() -> JsonDoc {
    JsonDoc::Object(Seq::empty())
}

pub(crate) fn empty_object() -> (j: Json)
    ensures
        j@ == empty_object_doc(),
        j@.well_formed(),
{
    let mut fields: Vec<JsonField> = Vec::new();
    proof {
        reveal_with_fuel(JsonDoc::well_formed, 2);
        assert(field_members(fields@) =~= Seq::<JsonMember>::empty());
        lemma_object_well_formed(field_members(fields@));
    }
    object(fields)
}

/// The services that the engine's API offers.
pub open spec fn api_services_doc() -> JsonDoc {
    JsonDoc::Array(
        seq![
            JsonDoc::Str("HandlerService"@),
            JsonDoc::Str("LoggerService"@),
            JsonDoc::Str("StatsService"@),
        ],
    )
}

pub(crate) fn api_services() -> (j: Json)
    ensures
        j@ == api_services_doc(),
        j@.well_formed(),
{
    let mut items: Vec<Json> = Vec::new();
    items.push(text("HandlerService"));
    items.push(text("LoggerService"));
    items.push(text("StatsService"));
    proof {
        reveal_with_fuel(JsonDoc::well_formed, 2);
        assert(docs_of(items@) =~= seq![
            JsonDoc::Str("HandlerService"@),
            JsonDoc::Str("LoggerService"@),
            JsonDoc::Str("StatsService"@),
        ]);
    }
    list(items)
}

/// The `api` section: the services under the tag `api`.
pub open spec fn api_doc() -> JsonDoc {
    JsonDoc::Object(
        seq![
            mem("services"@, api_services_doc()),
            mem("tag"@, JsonDoc::Str("api"@)),
        ],
    )
}

pub(crate) fn api_section() -> (j: Json)
    ensures
        j@ == api_doc(),
        j@.well_formed(),
{
    let mut fields: Vec<JsonField> = Vec::new();
    fields.push(field("services", api_services()));
    fields.push(field("tag", text("api")));
    proof {
        reveal_with_fuel(JsonDoc::well_formed, 2);
        reveal_strlit("services");
        reveal_strlit("tag");
        assert("services"@.len() == 8);
        assert("tag"@.len() == 3);
        assert(field_members(fields@) =~= seq![
            mem("services"@, api_services_doc()),
            mem("tag"@, JsonDoc::Str("api"@)),
        ]);
        lemma_object_well_formed(field_members(fields@));
    }
    object(fields)
}

/// The statistics kept for users of level 0.
pub open spec fn level_policy_doc() -> JsonDoc {
    JsonDoc::Object(
        seq![
            mem("statsUserUplink"@, JsonDoc::Bool(true)),
            mem("statsUserDownlink"@, JsonDoc::Bool(true)),
        ],
    )
}

pub(crate) fn level_policy() -> (j: Json)
    ensures
        j@ == level_policy_doc(),
        j@.well_formed(),
{
    let mut fields: Vec<JsonField> = Vec::new();
    fields.push(field("statsUserUplink", boolean(true)));
    fields.push(field("statsUserDownlink", boolean(true)));
    proof {
        reveal_with_fuel(JsonDoc::well_formed, 2);
        reveal_strlit("statsUserUplink");
        reveal_strlit("statsUserDownlink");
        assert("statsUserUplink"@.len() == 15);
        assert("statsUserDownlink"@.len() == 17);
        assert(field_members(fields@) =~= seq![
            mem("statsUserUplink"@, JsonDoc::Bool(true)),
            mem("statsUserDownlink"@, JsonDoc::Bool(true)),
        ]);
        lemma_object_well_formed(field_members(fields@));
    }
    object(fields)
}

/// The policy levels: level 0 alone.
pub open spec fn policy_levels_doc() -> JsonDoc {
    JsonDoc::Object(
        seq![
            mem("0"@, level_policy_doc()),
        ],
    )
}

pub(crate) fn policy_levels() -> (j: Json)
    ensures
        j@ == policy_levels_doc(),
        j@.well_formed(),
{
    let mut fields: Vec<JsonField> = Vec::new();
    fields.push(field("0", level_policy()));
    proof {
        reveal_with_fuel(JsonDoc::well_formed, 2);
        reveal_strlit("0");
        assert("0"@.len() == 1);
        assert(field_members(fields@) =~= seq![
            mem("0"@, level_policy_doc()),
        ]);
        lemma_object_well_formed(field_members(fields@));
    }
    object(fields)
}

/// The statistics kept for the whole system.
pub open spec fn system_policy_doc() -> JsonDoc {
    JsonDoc::Object(
        seq![
            mem("statsInboundUplink"@, JsonDoc::Bool(true)),
            mem("statsInboundDownlink"@, JsonDoc::Bool(true)),
            mem("statsOutboundUplink"@, JsonDoc::Bool(true)),
            mem("statsOutboundDownlink"@, JsonDoc::Bool(true)),
        ],
    )
}

pub(crate) fn system_policy() -> (j: Json)
    ensures
        j@ == system_policy_doc(),
        j@.well_formed(),
{
    let mut fields: Vec<JsonField> = Vec::new();
    fields.push(field("statsInboundUplink", boolean(true)));
    fields.push(field("statsInboundDownlink", boolean(true)));
    fields.push(field("statsOutboundUplink", boolean(true)));
    fields.push(field("statsOutboundDownlink", boolean(true)));
    proof {
        reveal_with_fuel(JsonDoc::well_formed, 2);
        reveal_strlit("statsInboundUplink");
        reveal_strlit("statsInboundDownlink");
        reveal_strlit("statsOutboundUplink");
        reveal_strlit("statsOutboundDownlink");
        assert("statsInboundUplink"@.len() == 18);
        assert("statsInboundDownlink"@.len() == 20);
        assert("statsOutboundUplink"@.len() == 19);
        assert("statsOutboundDownlink"@.len() == 21);
        assert(field_members(fields@) =~= seq![
            mem("statsInboundUplink"@, JsonDoc::Bool(true)),
            mem("statsInboundDownlink"@, JsonDoc::Bool(true)),
            mem("statsOutboundUplink"@, JsonDoc::Bool(true)),
            mem("statsOutboundDownlink"@, JsonDoc::Bool(true)),
        ]);
        lemma_object_well_formed(field_members(fields@));
    }
    object(fields)
}

/// The `policy` section.
pub open spec fn policy_doc() -> JsonDoc {
    JsonDoc::Object(
        seq![
            mem("levels"@, policy_levels_doc()),
            mem("system"@, system_policy_doc()),
        ],
    )
}

pub(crate) fn policy_section() -> (j: Json)
    ensures
        j@ == policy_doc(),
        j@.well_formed(),
{
    let mut fields: Vec<JsonField> = Vec::new();
    fields.push(field("levels", policy_levels()));
    fields.push(field("system", system_policy()));
    proof {
        reveal_with_fuel(JsonDoc::well_formed, 2);
        reveal_strlit("levels");
        reveal_strlit("system");
        assert("levels"@.len() == 6 && "levels"@[0] == 'l');
        assert("system"@.len() == 6 && "system"@[0] == 's');
        assert(field_members(fields@) =~= seq![
            mem("levels"@, policy_levels_doc()),
            mem("system"@, system_policy_doc()),
        ]);
        lemma_object_well_formed(field_members(fields@));
    }
    object(fields)
}

/// The inbound tags of the API rule.
pub open spec fn api_tags_doc() -> JsonDoc {
    JsonDoc::Array(seq![JsonDoc::Str("api"@)])
}

pub(crate) fn api_tags() -> (j: Json)
    ensures
        j@ == api_tags_doc(),
        j@.well_formed(),
{
    single(text("api"))
}

/// The one routing rule: what arrives for the API goes to the API handler.
pub open spec fn api_rule_doc() -> JsonDoc {
    JsonDoc::Object(
        seq![
            mem("inboundTag"@, api_tags_doc()),
            mem("outboundTag"@, JsonDoc::Str("api"@)),
            mem("type"@, JsonDoc::Str("field"@)),
        ],
    )
}

pub(crate) fn api_rule() -> (j: Json)
    ensures
        j@ == api_rule_doc(),
        j@.well_formed(),
{
    let mut fields: Vec<JsonField> = Vec::new();
    fields.push(field("inboundTag", api_tags()));
    fields.push(field("outboundTag", text("api")));
    fields.push(field("type", text("field")));
    proof {
        reveal_with_fuel(JsonDoc::well_formed, 2);
        reveal_strlit("inboundTag");
        reveal_strlit("outboundTag");
        reveal_strlit("type");
        assert("inboundTag"@.len() == 10);
        assert("outboundTag"@.len() == 11);
        assert("type"@.len() == 4);
        assert(field_members(fields@) =~= seq![
            mem("inboundTag"@, api_tags_doc()),
            mem("outboundTag"@, JsonDoc::Str("api"@)),
            mem("type"@, JsonDoc::Str("field"@)),
        ]);
        lemma_object_well_formed(field_members(fields@));
    }
    object(fields)
}

/// The routing rules: the API rule alone.
pub open spec fn routing_rules_doc() -> JsonDoc {
    JsonDoc::Array(seq![api_rule_doc()])
}

pub(crate) fn routing_rules() -> (j: Json)
    ensures
        j@ == routing_rules_doc(),
        j@.well_formed(),
{
    single(api_rule())
}

/// The routing settings.
pub open spec fn routing_settings_doc() -> JsonDoc {
    JsonDoc::Object(
        seq![
            mem("domainStrategy"@, JsonDoc::Str("AsIs"@)),
            mem("rules"@, routing_rules_doc()),
        ],
    )
}

pub(crate) fn routing_settings() -> (j: Json)
    ensures
        j@ == routing_settings_doc(),
        j@.well_formed(),
{
    let mut fields: Vec<JsonField> = Vec::new();
    fields.push(field("domainStrategy", text("AsIs")));
    fields.push(field("rules", routing_rules()));
    proof {
        reveal_with_fuel(JsonDoc::well_formed, 2);
        reveal_strlit("domainStrategy");
        reveal_strlit("rules");
        assert("domainStrategy"@.len() == 14);
        assert("rules"@.len() == 5);
        assert(field_members(fields@) =~= seq![
            mem("domainStrategy"@, JsonDoc::Str("AsIs"@)),
            mem("rules"@, routing_rules_doc()),
        ]);
        lemma_object_well_formed(field_members(fields@));
    }
    object(fields)
}

/// The `routing` section.
pub open spec fn routing_doc() -> JsonDoc {
    JsonDoc::Object(
        seq![
            mem("settings"@, routing_settings_doc()),
        ],
    )
}

pub(crate) fn routing_section() -> (j: Json)
    ensures
        j@ == routing_doc(),
        j@.well_formed(),
{
    let mut fields: Vec<JsonField> = Vec::new();
    fields.push(field("settings", routing_settings()));
    proof {
        reveal_with_fuel(JsonDoc::well_formed, 2);
        reveal_strlit("settings");
        assert("settings"@.len() == 8);
        assert(field_members(fields@) =~= seq![
            mem("settings"@, routing_settings_doc()),
        ]);
        lemma_object_well_formed(field_members(fields@));
    }
    object(fields)
}

/// The whole configuration, from its sections.
pub open spec fn config_document_doc(
    log: JsonDoc,
    inbounds: JsonDoc,
    outbounds: JsonDoc,
    dns: JsonDoc,
) -> JsonDoc {
    JsonDoc::Object(
        seq![
            mem("log"@, log),
            mem("inbounds"@, inbounds),
            mem("stats"@, empty_object_doc()),
            mem("api"@, api_doc()),
            mem("policy"@, policy_doc()),
            mem("outbounds"@, outbounds),
            mem("dns"@, dns),
            mem("routing"@, routing_doc()),
            mem("transport"@, empty_object_doc()),
        ],
    )
}

pub(crate) fn config_document(log: Json, inbounds: Json, outbounds: Json, dns: Json) -> (j: Json)
    requires
        log@.well_formed(),
        inbounds@.well_formed(),
        outbounds@.well_formed(),
        dns@.well_formed(),
    ensures
        j@ == config_document_doc(log@, inbounds@, outbounds@, dns@),
        j@.well_formed(),
{
    let ghost log_doc = log@;
    let ghost inbounds_doc = inbounds@;
    let ghost outbounds_doc = outbounds@;
    let ghost dns_doc = dns@;
    let mut fields: Vec<JsonField> = Vec::new();
    fields.push(field("log", log));
    fields.push(field("inbounds", inbounds));
    fields.push(field("stats", empty_object()));
    fields.push(field("api", api_section()));
    fields.push(field("policy", policy_section()));
    fields.push(field("outbounds", outbounds));
    fields.push(field("dns", dns));
    fields.push(field("routing", routing_section()));
    fields.push(field("transport", empty_object()));
    proof {
        reveal_with_fuel(JsonDoc::well_formed, 2);
        reveal_strlit("log");
        reveal_strlit("inbounds");
        reveal_strlit("stats");
        reveal_strlit("api");
        reveal_strlit("policy");
        reveal_strlit("outbounds");
        reveal_strlit("dns");
        reveal_strlit("routing");
        reveal_strlit("transport");
        assert("log"@.len() == 3 && "log"@[0] == 'l');
        assert("inbounds"@.len() == 8);
        assert("stats"@.len() == 5);
        assert("api"@.len() == 3 && "api"@[0] == 'a');
        assert("policy"@.len() == 6);
        assert("outbounds"@.len() == 9 && "outbounds"@[0] == 'o');
        assert("dns"@.len() == 3 && "dns"@[0] == 'd');
        assert("routing"@.len() == 7);
        assert("transport"@.len() == 9 && "transport"@[0] == 't');
        assert(field_members(fields@) =~= seq![
            mem("log"@, log_doc),
            mem("inbounds"@, inbounds_doc),
            mem("stats"@, empty_object_doc()),
            mem("api"@, api_doc()),
            mem("policy"@, policy_doc()),
            mem("outbounds"@, outbounds_doc),
            mem("dns"@, dns_doc),
            mem("routing"@, routing_doc()),
            mem("transport"@, empty_object_doc()),
        ]);
        lemma_object_well_formed(field_members(fields@));
    }
    object(fields)
}

} // verus!
