//! The DNS overrides of a user, stored as JSON text: an object whose member
//! `hosts` maps host names to addresses.

use crate::config::error::{malformed, ConfigError, Section, SynthesisError};
use crate::json::{
    field, field_members, find_pair, lemma_object_well_formed, mem, object, pair_members,
    parse_value, parsed_json, text, value_as_str, value_doc, value_members, Json, JsonDoc,
    JsonField, JsonMember,
};
use vstd::prelude::*;
use vstd::string::*;

verus! {

/// Every member is a string.
pub open spec fn all_strings(members: Seq<JsonMember>) -> bool {
    forall|i: int| 0 <= i < members.len() ==> (#[trigger] members[i]).value is Str
}

/// The host map of a stored document: the members of its `hosts` object,
/// provided that each is a string.
pub open spec fn hosts_of(doc: JsonDoc) -> Option<Seq<JsonMember>> {
    match doc.member("hosts"@) {
        Some(JsonDoc::Object(hosts)) => if all_strings(hosts) {
            Some(hosts)
        } else {
            None
        },
        _ => None,
    }
}

/// The `dns` section around a host map.
pub open spec fn dns_section_doc(hosts: Seq<JsonMember>) -> JsonDoc {
    JsonDoc::Object(seq![mem("hosts"@, JsonDoc::Object(hosts))])
}

/// The `dns` section for a stored text, or the fault: the text is not JSON,
/// or has no host map.
pub open spec fn dns_doc(stored: Seq<char>) -> Result<JsonDoc, SynthesisError> {
    match parsed_json(stored) {
        Some(doc) => match hosts_of(doc) {
            Some(hosts) => Ok(dns_section_doc(hosts)),
            None => Err(malformed(Section::Dns)),
        },
        None => Err(malformed(Section::Dns)),
    }
}

/// Reads the host map out of a parsed document and builds the `dns` section.
pub fn dns_from_value(value: &serde_json::Value) -> (section: Option<Json>)
    ensures
        match section {
            Some(j) => hosts_of(value_doc(*value)) is Some && j@ == dns_section_doc(
                hosts_of(value_doc(*value))->0,
            ) && j@.well_formed(),
            None => hosts_of(value_doc(*value)) is None,
        },
{
    let pairs = match value_members(value) {
        Some(p) => p,
        None => {
            return None;
        },
    };
    let at = match find_pair(&pairs, "hosts") {
        Some(i) => i,
        None => {
            return None;
        },
    };
    let entries = match value_members(&pairs[at].1) {
        Some(e) => e,
        None => {
            return None;
        },
    };
    let ghost hosts = pair_members(entries@);
    let mut fields: Vec<JsonField> = Vec::new();
    let mut i: usize = 0;
    assert(field_members(fields@) =~= hosts.take(0));
    while i < entries.len()
        invariant
            i <= entries.len(),
            hosts == pair_members(entries@),
            value_doc(*value).member("hosts"@) == Some(JsonDoc::Object(hosts)),
            field_members(fields@) == hosts.take(i as int),
            forall|k: int| 0 <= k < i ==> (#[trigger] hosts[k]).value is Str,
        decreases entries.len() - i,
    {
        let ghost before = field_members(fields@);
        match value_as_str(&entries[i].1) {
            Some(address) => {
                fields.push(field(entries[i].0.as_str(), text(address)));
                assert(field_members(fields@) =~= before.push(hosts[i as int]));
                assert(hosts.take(i + 1) =~= hosts.take(i as int).push(hosts[i as int]));
            },
            None => {
                assert(!(hosts[i as int].value is Str));
                return None;
            },
        }
        i += 1;
    }
    proof {
        assert(hosts.take(entries.len() as int) =~= hosts);
        reveal_with_fuel(JsonDoc::well_formed, 2);
        lemma_object_well_formed(hosts);
    }
    let map = object(fields);
    let mut outer: Vec<JsonField> = Vec::new();
    outer.push(field("hosts", map));
    proof {
        assert(field_members(outer@) =~= seq![mem("hosts"@, JsonDoc::Object(hosts))]);
        lemma_object_well_formed(field_members(outer@));
    }
    Some(object(outer))
}

/// Builds the `dns` section from the stored text.
pub fn dns_section(stored: &str) -> (result: Result<Json, SynthesisError>)
    ensures
        match result {
            Ok(j) => dns_doc(stored@) == Ok::<JsonDoc, SynthesisError>(j@) && j@.well_formed(),
            Err(e) => dns_doc(stored@) == Err::<JsonDoc, SynthesisError>(e),
        },
{
    match parse_value(stored) {
        Ok(value) => match dns_from_value(&value) {
            Some(j) => Ok(j),
            None => Err(SynthesisError::Config(ConfigError::MalformedDocument(Section::Dns))),
        },
        Err(_) => Err(SynthesisError::Config(ConfigError::MalformedDocument(Section::Dns))),
    }
}

} // verus!
