//! The bypass list of a user, stored as JSON text: an object whose member
//! `bypass` is an array of domain names.

use crate::config::error::{ConfigError, Section};
use crate::json::{
    find_pair, parse_value, parsed_json, value_as_array, value_as_str, value_doc, value_docs,
    value_members, JsonDoc,
};
use crate::text::strings;
use vstd::prelude::*;
use vstd::string::*;

verus! {

/// Every document is a string.
pub open spec fn all_texts(items: Seq<JsonDoc>) -> bool {
    forall|i: int| 0 <= i < items.len() ==> (#[trigger] items[i]) is Str
}

/// The texts of a sequence of strings.
pub open spec fn texts_of(items: Seq<JsonDoc>) -> Seq<Seq<char>> {
    Seq::new(items.len(), |i: int| items[i]->Str_0)
}

/// The domains of a stored document: the elements of its `bypass` array,
/// provided that each is a string.
pub open spec fn bypass_of(doc: JsonDoc) -> Option<Seq<Seq<char>>> {
    match doc.member("bypass"@) {
        Some(JsonDoc::Array(items)) => if all_texts(items) {
            Some(texts_of(items))
        } else {
            None
        },
        _ => None,
    }
}

/// The domains that a stored text lists, or the fault: the text is not JSON,
/// or has no list of domains.
pub open spec fn bypass_domains_of(stored: Seq<char>) -> Result<Seq<Seq<char>>, ConfigError> {
    match parsed_json(stored) {
        Some(doc) => match bypass_of(doc) {
            Some(domains) => Ok(domains),
            None => Err(ConfigError::MalformedDocument(Section::BypassDomains)),
        },
        None => Err(ConfigError::MalformedDocument(Section::BypassDomains)),
    }
}

/// Reads the bypass domains out of a parsed document.
pub fn bypass_from_value(value: &serde_json::Value) -> (domains: Option<Vec<String>>)
    ensures
        match domains {
            Some(list) => bypass_of(value_doc(*value)) == Some(strings(list@)),
            None => bypass_of(value_doc(*value)) is None,
        },
{
    let pairs = match value_members(value) {
        Some(p) => p,
        None => {
            return None;
        },
    };
    let at = match find_pair(&pairs, "bypass") {
        Some(i) => i,
        None => {
            return None;
        },
    };
    let items = match value_as_array(&pairs[at].1) {
        Some(list) => list,
        None => {
            return None;
        },
    };
    let ghost docs = value_docs(items@);
    let mut domains: Vec<String> = Vec::new();
    let mut i: usize = 0;
    while i < items.len()
        invariant
            i <= items.len(),
            docs == value_docs(items@),
            value_doc(*value).member("bypass"@) == Some(JsonDoc::Array(docs)),
            domains@.len() == i,
            forall|k: int| 0 <= k < i ==> (#[trigger] docs[k]) is Str,
            forall|k: int| 0 <= k < i ==> (#[trigger] domains@[k])@ == docs[k]->Str_0,
        decreases items.len() - i,
    {
        match value_as_str(&items[i]) {
            Some(domain) => {
                domains.push(domain.to_owned());
            },
            None => {
                assert(!(docs[i as int] is Str));
                return None;
            },
        }
        i += 1;
    }
    assert(strings(domains@) =~= texts_of(docs));
    Some(domains)
}

/// Reads the bypass domains out of the stored text.
pub fn parse_bypass_domains(stored: &str) -> (result: Result<Vec<String>, ConfigError>)
    ensures
        match result {
            Ok(list) => bypass_domains_of(stored@) == Ok::<Seq<Seq<char>>, ConfigError>(
                strings(list@),
            ),
            Err(e) => bypass_domains_of(stored@) == Err::<Seq<Seq<char>>, ConfigError>(e),
        },
{
    match parse_value(stored) {
        Ok(value) => match bypass_from_value(&value) {
            Some(list) => Ok(list),
            None => Err(ConfigError::MalformedDocument(Section::BypassDomains)),
        },
        Err(_) => Err(ConfigError::MalformedDocument(Section::BypassDomains)),
    }
}

} // verus!
