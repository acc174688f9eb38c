//! The events that telemetry reports: what an event holds, given the state
//! of telemetry and the facts of the moment.

use crate::json::{
    array, boolean, docs_of, field, field_members, mem, null, number, object, text, Json, JsonDoc,
    JsonField, JsonMember,
};
use crate::platform::Platform;
use crate::telemetry::{get_os, hash_user_id, os_name, sha256_hex, Telemetry, UsageMetrics};
use crate::text::strings;
use vstd::prelude::*;
use vstd::string::*;

verus! {

/// The index of the first member called `name`.
pub open spec fn position(members: Seq<JsonMember>, name: Seq<char>) -> Option<int>
    decreases members.len(),
{
    if members.len() == 0 {
        None
    } else {
        match position(members.drop_last(), name) {
            Some(i) => Some(i),
            None => if members.last().name == name {
                Some(members.len() - 1)
            } else {
                None
            },
        }
    }
}

/// The members with one more put in: in place of the first member of the
/// same name, or at the end where there is none.
pub open spec fn upsert(members: Seq<JsonMember>, extra: JsonMember) -> Seq<JsonMember> {
    match position(members, extra.name) {
        Some(i) => members.update(i, extra),
        None => members.push(extra),
    }
}

/// The members with all of `extra` put in, one after the other.
pub open spec fn merged(base: Seq<JsonMember>, extra: Seq<JsonMember>) -> Seq<JsonMember>
    decreases extra.len(),
{
    if extra.len() == 0 {
        base
    } else {
        upsert(merged(base, extra.drop_last()), extra.last())
    }
}

proof fn lemma_position(members: Seq<JsonMember>, name: Seq<char>)
    ensures
        match position(members, name) {
            Some(i) => 0 <= i < members.len() && members[i].name == name,
            None => forall|k: int| 0 <= k < members.len() ==> (#[trigger] members[k]).name != name,
        },
    decreases members.len(),
{
    if members.len() > 0 {
        lemma_position(members.drop_last(), name);
        if position(members.drop_last(), name) is None {
            assert forall|k: int| 0 <= k < members.len() - 1 implies (#[trigger] members[k]).name
                != name by {
                assert(members.drop_last()[k] == members[k]);
            }
        } else {
            let i = position(members.drop_last(), name)->0;
            assert(members.drop_last()[i] == members[i]);
        }
    }
}

proof fn lemma_position_found(members: Seq<JsonMember>, name: Seq<char>, i: int)
    requires
        0 <= i < members.len(),
        members[i].name == name,
        forall|k: int| 0 <= k < i ==> (#[trigger] members[k]).name != name,
    ensures
        position(members, name) == Some(i),
    decreases members.len(),
{
    if members.len() - 1 == i {
        lemma_position(members.drop_last(), name);
        if position(members.drop_last(), name) is Some {
            let j = position(members.drop_last(), name)->0;
            assert(members.drop_last()[j] == members[j]);
        }
    } else {
        assert(members.drop_last()[i] == members[i]);
        assert forall|k: int| 0 <= k < i implies (#[trigger] members.drop_last()[k]).name
            != name by {
            assert(members.drop_last()[k] == members[k]);
        }
        lemma_position_found(members.drop_last(), name, i);
    }
}

/// Puts a field among the fields: in place of the first of the same name, or
/// at the end.
pub fn put_field(fields: &mut Vec<JsonField>, extra: JsonField)
    ensures
        field_members(final(fields)@) == upsert(
            field_members(old(fields)@),
            mem(extra.name@, extra.value@),
        ),
{
    let ghost members = field_members(fields@);
    let ghost added = mem(extra.name@, extra.value@);
    let mut i: usize = 0;
    while i < fields.len()
        invariant
            i <= fields.len(),
            fields@ == old(fields)@,
            members == field_members(fields@),
            added == mem(extra.name@, extra.value@),
            forall|k: int| 0 <= k < i ==> (#[trigger] members[k]).name != extra.name@,
        decreases fields.len() - i,
    {
        if fields[i].name == extra.name {
            proof {
                lemma_position_found(members, extra.name@, i as int);
            }
            fields.set(i, extra);
            assert forall|k: int| 0 <= k < members.len() implies field_members(fields@)[k]
                == members.update(i as int, added)[k] by {
                if k != i {
                    assert(fields@[k] == old(fields)@[k]);
                    assert(members[k] == mem(old(fields)@[k].name@, old(fields)@[k].value@));
                }
            }
            assert(field_members(fields@) =~= members.update(i as int, added));
            return ;
        }
        i += 1;
    }
    proof {
        lemma_position(members, extra.name@);
    }
    fields.push(extra);
    assert(field_members(fields@) =~= members.push(added));
}

/// Puts every field of `extra` among the fields, in order.
pub fn merge_fields(fields: &mut Vec<JsonField>, extra: Vec<JsonField>)
    ensures
        field_members(final(fields)@) == merged(
            field_members(old(fields)@),
            field_members(extra@),
        ),
{
    let ghost base = field_members(fields@);
    let ghost all = field_members(extra@);
    let mut rest = extra;
    let mut done: Ghost<int> = Ghost(0);
    assert(all.take(0) =~= Seq::<JsonMember>::empty());
    while rest.len() > 0
        invariant
            0 <= done@ <= all.len(),
            field_members(rest@) == all.skip(done@),
            field_members(fields@) == merged(base, all.take(done@)),
        decreases rest.len(),
    {
        let ghost before = field_members(rest@);
        proof {
            assert(before.len() == rest@.len());
            assert(all.skip(done@).len() == all.len() - done@);
        }
        let next = rest.remove(0);
        proof {
            assert(before[0] == all.skip(done@)[0]);
            assert(before[0] == all[done@]);
            assert forall|k: int| 0 <= k < rest@.len() implies field_members(rest@)[k]
                == all.skip(done@ + 1)[k] by {
                assert(before[k + 1] == all.skip(done@)[k + 1]);
            }
            assert(field_members(rest@) =~= all.skip(done@ + 1));
            assert(all.take(done@ + 1).drop_last() =~= all.take(done@));
            assert(all.take(done@ + 1).last() == all[done@]);
        }
        put_field(fields, next);
        proof {
            done@ = done@ + 1;
        }
    }
    assert(all.take(all.len() as int) =~= all);
}

/// The facts of the moment that an event carries.
pub struct EventFacts {
    /// The time of the event, as text.
    pub time: String,
    pub event_type: String,
    pub app_version: String,
    pub platform: Platform,
    pub device_id: String,
    /// The public address of the client, where it is known.
    pub client_ip: Option<String>,
    /// The user concerned, where there is one.
    pub user_id: Option<String>,
}

/// A member that is there only where it has a value.
pub open spec fn optional_member(name: Seq<char>, value: Option<JsonDoc>) -> Seq<JsonMember> {
    match value {
        Some(v) => seq![mem(name, v)],
        None => Seq::empty(),
    }
}

/// The texts as an array of strings.
pub open spec fn text_array(items: Seq<Seq<char>>) -> JsonDoc {
    JsonDoc::Array(Seq::new(items.len(), |i: int| JsonDoc::Str(items[i])))
}

/// What an event tells of the usage so far: each figure only where it tells
/// something.
pub open spec fn usage_members(metrics: UsageMetrics) -> Seq<JsonMember> {
    optional_member(
        "uptime_seconds"@,
        if metrics.uptime_seconds > 0 {
            Some(JsonDoc::Int(metrics.uptime_seconds as int))
        } else {
            None
        },
    ) + optional_member(
        "proxy_mode"@,
        match metrics.proxy_mode {
            Some(m) => Some(JsonDoc::Str(m@)),
            None => None,
        },
    ) + optional_member(
        "features_used"@,
        if metrics.features_used@.len() > 0 {
            Some(text_array(strings(metrics.features_used@)))
        } else {
            None
        },
    ) + optional_member(
        "connection_attempts"@,
        if metrics.connection_attempts > 0 {
            Some(JsonDoc::Int(metrics.connection_attempts as int))
        } else {
            None
        },
    ) + optional_member(
        "connection_successes"@,
        if metrics.connection_successes > 0 {
            Some(JsonDoc::Int(metrics.connection_successes as int))
        } else {
            None
        },
    )
}

/// What identifies an event: when, what, from where.
pub open spec fn identity_members(facts: EventFacts) -> Seq<JsonMember> {
    seq![
        mem("_time"@, JsonDoc::Str(facts.time@)),
        mem("event_type"@, JsonDoc::Str(facts.event_type@)),
        mem("source"@, JsonDoc::Str("rust"@)),
        mem("app_version"@, JsonDoc::Str(facts.app_version@)),
        mem("os"@, JsonDoc::Str(os_name(facts.platform))),
        mem("device_id"@, JsonDoc::Str(facts.device_id@)),
    ] + optional_member(
        "client_ip"@,
        match facts.client_ip {
            Some(ip) => Some(JsonDoc::Str(ip@)),
            None => None,
        },
    ) + optional_member(
        "user_id_hash"@,
        match facts.user_id {
            Some(id) => Some(JsonDoc::Str(sha256_hex(id@))),
            None => None,
        },
    )
}

/// The members of an event: its identity, the usage so far, and the
/// additional data put in on top.
pub open spec fn event_members(
    metrics: UsageMetrics,
    facts: EventFacts,
    additional: Seq<JsonMember>,
) -> Seq<JsonMember> {
    merged(identity_members(facts) + usage_members(metrics), additional)
}

/// The strings as an array.
pub fn string_list(items: &Vec<String>) -> (j: Json)
    ensures
        j@ == text_array(strings(items@)),
{
    let mut values: Vec<Json> = Vec::new();
    let mut i: usize = 0;
    while i < items.len()
        invariant
            i <= items.len(),
            values@.len() == i,
            forall|k: int| 0 <= k < i ==> (#[trigger] values@[k])@ == JsonDoc::Str(items@[k]@),
        decreases items.len() - i,
    {
        values.push(text(items[i].as_str()));
        i += 1;
    }
    assert(docs_of(values@) =~= Seq::new(
        items@.len(),
        |i: int| JsonDoc::Str(strings(items@)[i]),
    ));
    array(values)
}

fn push_optional(fields: &mut Vec<JsonField>, name: &str, value: Option<Json>)
    ensures
        field_members(final(fields)@) == field_members(old(fields)@) + optional_member(
            name@,
            crate::json::option_doc(value),
        ),
{
    let ghost before = field_members(fields@);
    match value {
        Some(v) => {
            let ghost doc = v@;
            fields.push(field(name, v));
            assert(field_members(fields@) =~= before + seq![mem(name@, doc)]);
        },
        None => {
            assert(field_members(fields@) =~= before + Seq::<JsonMember>::empty());
        },
    }
}

fn identity_fields(facts: &EventFacts) -> (fields: Vec<JsonField>)
    ensures
        field_members(fields@) == identity_members(*facts),
{
    let mut fields: Vec<JsonField> = Vec::new();
    fields.push(field("_time", text(facts.time.as_str())));
    fields.push(field("event_type", text(facts.event_type.as_str())));
    fields.push(field("source", text("rust")));
    fields.push(field("app_version", text(facts.app_version.as_str())));
    fields.push(field("os", text(get_os(facts.platform).as_str())));
    fields.push(field("device_id", text(facts.device_id.as_str())));
    assert(field_members(fields@) =~= seq![
        mem("_time"@, JsonDoc::Str(facts.time@)),
        mem("event_type"@, JsonDoc::Str(facts.event_type@)),
        mem("source"@, JsonDoc::Str("rust"@)),
        mem("app_version"@, JsonDoc::Str(facts.app_version@)),
        mem("os"@, JsonDoc::Str(os_name(facts.platform))),
        mem("device_id"@, JsonDoc::Str(facts.device_id@)),
    ]);
    let client_ip = match &facts.client_ip {
        Some(ip) => Some(text(ip.as_str())),
        None => None,
    };
    push_optional(&mut fields, "client_ip", client_ip);
    let user = match &facts.user_id {
        Some(id) => Some(text(hash_user_id(id.as_str()).as_str())),
        None => None,
    };
    push_optional(&mut fields, "user_id_hash", user);
    fields
}

fn usage_fields(metrics: &UsageMetrics) -> (fields: Vec<JsonField>)
    ensures
        field_members(fields@) == usage_members(*metrics),
{
    let mut fields: Vec<JsonField> = Vec::new();
    assert(field_members(fields@) =~= Seq::<JsonMember>::empty());
    let uptime = if metrics.uptime_seconds > 0 {
        Some(number(metrics.uptime_seconds))
    } else {
        None
    };
    push_optional(&mut fields, "uptime_seconds", uptime);
    let ghost first = field_members(fields@);
    assert(first =~= optional_member("uptime_seconds"@, crate::json::option_doc(uptime)));
    let mode = match &metrics.proxy_mode {
        Some(m) => Some(text(m.as_str())),
        None => None,
    };
    push_optional(&mut fields, "proxy_mode", mode);
    let features = if metrics.features_used.len() > 0 {
        Some(string_list(&metrics.features_used))
    } else {
        None
    };
    push_optional(&mut fields, "features_used", features);
    let attempts = if metrics.connection_attempts > 0 {
        Some(number(metrics.connection_attempts as i64))
    } else {
        None
    };
    push_optional(&mut fields, "connection_attempts", attempts);
    let successes = if metrics.connection_successes > 0 {
        Some(number(metrics.connection_successes as i64))
    } else {
        None
    };
    push_optional(&mut fields, "connection_successes", successes);
    fields
}

/// Assembles an event, if telemetry was started: none is reported before.
pub fn build_event(ctx: &Telemetry, facts: &EventFacts, additional: Vec<JsonField>) -> (event:
    Option<Json>)
    ensures
        match event {
            Some(j) => ctx.initialized && j@ == JsonDoc::Object(
                event_members(ctx.metrics, *facts, field_members(additional@)),
            ),
            None => !ctx.initialized,
        },
{
    if !ctx.initialized {
        return None;
    }
    let mut fields = identity_fields(facts);
    let mut usage = usage_fields(&ctx.metrics);
    let ghost a = field_members(fields@);
    let ghost b = field_members(usage@);
    fields.append(&mut usage);
    assert(field_members(fields@) =~= a + b);
    merge_fields(&mut fields, additional);
    Some(object(fields))
}

/// What the daily summary tells, but for the success rate, which the host
/// adds: the usage so far, whether the device was active on the day, and the
/// day.
pub open spec fn summary_members(ctx: Telemetry, today: Seq<char>) -> Seq<JsonMember> {
    seq![
        mem("uptime_seconds"@, JsonDoc::Int(ctx.metrics.uptime_seconds as int)),
        mem(
            "proxy_mode"@,
            match ctx.metrics.proxy_mode {
                Some(m) => JsonDoc::Str(m@),
                None => JsonDoc::Null,
            },
        ),
        mem("features_used"@, text_array(strings(ctx.metrics.features_used@))),
        mem("connection_attempts"@, JsonDoc::Int(ctx.metrics.connection_attempts as int)),
        mem("connection_successes"@, JsonDoc::Int(ctx.metrics.connection_successes as int)),
        mem(
            "is_daily_active"@,
            JsonDoc::Bool(ctx.last_active_date matches Some(d) && d@ == today),
        ),
        mem("date"@, JsonDoc::Str(today)),
    ]
}

/// Assembles the additional data of the daily summary.
pub fn daily_summary(ctx: &Telemetry, today: &str) -> (fields: Vec<JsonField>)
    ensures
        field_members(fields@) == summary_members(*ctx, today@),
{
    let day = today.to_owned();
    let active = match &ctx.last_active_date {
        Some(d) => *d == day,
        None => false,
    };
    let mode = match &ctx.metrics.proxy_mode {
        Some(m) => text(m.as_str()),
        None => null(),
    };
    let mut fields: Vec<JsonField> = Vec::new();
    fields.push(field("uptime_seconds", number(ctx.metrics.uptime_seconds)));
    fields.push(field("proxy_mode", mode));
    fields.push(field("features_used", string_list(&ctx.metrics.features_used)));
    fields.push(field("connection_attempts", number(ctx.metrics.connection_attempts as i64)));
    fields.push(field("connection_successes", number(ctx.metrics.connection_successes as i64)));
    fields.push(field("is_daily_active", boolean(active)));
    fields.push(field("date", text(today)));
    assert(field_members(fields@) =~= summary_members(*ctx, today@));
    fields
}

/// The additional data of a daily-active event.
pub open spec fn daily_active_members(today: Seq<char>) -> Seq<JsonMember> {
    seq![mem("date"@, JsonDoc::Str(today)), mem("is_daily_active"@, JsonDoc::Bool(true))]
}

pub fn daily_active_data(today: &str) -> (fields: Vec<JsonField>)
    ensures
        field_members(fields@) == daily_active_members(today@),
{
    let mut fields: Vec<JsonField> = Vec::new();
    fields.push(field("date", text(today)));
    fields.push(field("is_daily_active", boolean(true)));
    assert(field_members(fields@) =~= daily_active_members(today@));
    fields
}

} // verus!
