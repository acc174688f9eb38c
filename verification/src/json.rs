//! JSON documents: a mathematical model, a value type for building them, and
//! the calls into `serde_json` that print and parse them.

use vstd::prelude::*;
use vstd::string::*;

verus! {

/// A JSON document as a mathematical value.
pub enum JsonDoc {
    Null,
    Bool(bool),
    /// A number without fraction or exponent.
    Int(int),
    /// Any other number, by its literal.
    Real(Seq<char>),
    Str(Seq<char>),
    Array(Seq<JsonDoc>),
    /// The members of an object, in the order in which they are printed.
    Object(Seq<JsonMember>),
}

/// One member of a JSON object.
pub struct JsonMember {
    pub name: Seq<char>,
    pub value: JsonDoc,
}

impl JsonDoc {
    /// No object, at any depth, has two members of the same name.
    pub open spec fn well_formed(self) -> bool
        decreases self,
    {
        match self {
            JsonDoc::Array(items) => forall|i: int|
                0 <= i < items.len() ==> (#[trigger] items[i]).well_formed(),
            JsonDoc::Object(members) => {
                &&& forall|i: int|
                    0 <= i < members.len() ==> (#[trigger] members[i]).value.well_formed()
                &&& distinct_names(members)
            },
            _ => true,
        }
    }

    /// The value of the member called `name`, if this is an object that has one.
    pub open spec fn member(self, name: Seq<char>) -> Option<JsonDoc> {
        match self {
            JsonDoc::Object(members) => find_member(members, name),
            _ => None,
        }
    }
}

/// No two members share a name.
pub open spec fn distinct_names(members: Seq<JsonMember>) -> bool {
    forall|i: int, j: int|
        0 <= i < j < members.len() ==> (#[trigger] members[i]).name != (#[trigger] members[j]).name
}

/// The value of the first member called `name`.
pub open spec fn find_member(members: Seq<JsonMember>, name: Seq<char>) -> Option<JsonDoc>
    decreases members.len(),
{
    if members.len() == 0 {
        None
    } else if members[0].name == name {
        Some(members[0].value)
    } else {
        find_member(members.drop_first(), name)
    }
}

/// A JSON value under construction.
pub enum Json {
    Null,
    Bool(bool),
    Int(i64),
    Str(String),
    Array(Vec<Json>),
    Object(Vec<JsonField>),
}

/// A named member of an object under construction.
pub struct JsonField {
    pub name: String,
    pub value: Json,
}

impl View for Json {
    type V = JsonDoc;

    open spec fn view(&self) -> JsonDoc
        decreases self,
    {
        match self {
            Json::Null => JsonDoc::Null,
            Json::Bool(b) => JsonDoc::Bool(*b),
            Json::Int(n) => JsonDoc::Int(*n as int),
            Json::Str(s) => JsonDoc::Str(s@),
            Json::Array(items) => JsonDoc::Array(
                Seq::new(
                    items@.len(),
                    |i: int|
                        if 0 <= i < items@.len() {
                            items@[i].view()
                        } else {
                            JsonDoc::Null
                        },
                ),
            ),
            Json::Object(fields) => JsonDoc::Object(
                Seq::new(
                    fields@.len(),
                    |i: int|
                        if 0 <= i < fields@.len() {
                            JsonMember { name: fields@[i].name@, value: fields@[i].value.view() }
                        } else {
                            JsonMember { name: Seq::empty(), value: JsonDoc::Null }
                        },
                ),
            ),
        }
    }
}

/// The member with the given name and value.
pub open spec fn mem(name: Seq<char>, value: JsonDoc) -> JsonMember {
    JsonMember { name, value }
}

/// The members that a sequence of fields stands for.
pub open spec fn field_members(fields: Seq<JsonField>) -> Seq<JsonMember> {
    Seq::new(fields.len(), |i: int| mem(fields[i].name@, fields[i].value@))
}

/// The documents that a sequence of values stands for.
pub open spec fn docs_of(items: Seq<Json>) -> Seq<JsonDoc> {
    Seq::new(items.len(), |i: int| items[i]@)
}

/// The document of an optional value.
pub open spec fn option_doc(value: Option<Json>) -> Option<JsonDoc> {
    match value {
        Some(j) => Some(j@),
        None => None,
    }
}

/// Every document of the sequence is well formed.
pub open spec fn all_well_formed(docs: Seq<JsonDoc>) -> bool {
    forall|i: int| 0 <= i < docs.len() ==> (#[trigger] docs[i]).well_formed()
}

/// An object is well formed when its names differ and its values are well
/// formed.
pub proof fn lemma_object_well_formed(members: Seq<JsonMember>)
    requires
        distinct_names(members),
        forall|i: int| 0 <= i < members.len() ==> (#[trigger] members[i]).value.well_formed(),
    ensures
        JsonDoc::Object(members).well_formed(),
{
}

/// An array is well formed when its elements are.
pub proof fn lemma_array_well_formed(items: Seq<JsonDoc>)
    requires
        all_well_formed(items),
    ensures
        JsonDoc::Array(items).well_formed(),
{
}

/// The null value.
pub fn null() -> (j: Json)
    ensures
        j@ == JsonDoc::Null,
{
    Json::Null
}

/// A truth value.
pub fn boolean(b: bool) -> (j: Json)
    ensures
        j@ == JsonDoc::Bool(b),
{
    Json::Bool(b)
}

/// A string value.
pub fn text(s: &str) -> (j: Json)
    ensures
        j@ == JsonDoc::Str(s@),
{
    Json::Str(s.to_owned())
}

/// A number value.
pub fn number(n: i64) -> (j: Json)
    ensures
        j@ == JsonDoc::Int(n as int),
{
    Json::Int(n)
}

/// A named member.
pub fn field(name: &str, value: Json) -> (f: JsonField)
    ensures
        f.name@ == name@,
        f.value == value,
{
    JsonField { name: name.to_owned(), value }
}

/// The object with the given members, in order.
pub fn object(fields: Vec<JsonField>) -> (j: Json)
    ensures
        j@ == JsonDoc::Object(field_members(fields@)),
{
    let ghost members = field_members(fields@);
    let j = Json::Object(fields);
    assert(j@ == JsonDoc::Object(members)) by {
        assert(j@ matches JsonDoc::Object(ms) && ms =~= members);
    }
    j
}

/// The array with the given elements, in order.
pub fn array(items: Vec<Json>) -> (j: Json)
    ensures
        j@ == JsonDoc::Array(docs_of(items@)),
{
    let ghost docs = docs_of(items@);
    let j = Json::Array(items);
    assert(j@ == JsonDoc::Array(docs)) by {
        assert(j@ matches JsonDoc::Array(ds) && ds =~= docs);
    }
    j
}

/// `serde_json::Value`, carried as it is: what it holds is known through
/// `value_doc` alone.
#[verifier::external_type_specification]
#[verifier::external_body]
pub struct ExJsonValue(serde_json::Value);

/// `serde_json::Error`, carried as it is.
#[verifier::external_type_specification]
#[verifier::external_body]
pub struct ExJsonError(serde_json::Error);

/// The document that a `serde_json::Value` holds.
pub uninterp spec fn value_doc(value: serde_json::Value) -> JsonDoc;

/// What `serde_json` prints for a document, indented: the text, or nothing
/// where it reports a failure.
pub uninterp spec fn pretty_text(doc: JsonDoc) -> Option<Seq<char>>;

/// The characters of an optional text.
pub open spec fn text_of(text: Option<String>) -> Option<Seq<char>> {
    match text {
        Some(t) => Some(t@),
        None => None,
    }
}

/// The document that `serde_json` reads from a text, if it is JSON.
pub uninterp spec fn parsed_json(text: Seq<char>) -> Option<JsonDoc>;

/// The documents held by a sequence of values.
pub open spec fn value_docs(values: Seq<serde_json::Value>) -> Seq<JsonDoc> {
    Seq::new(values.len(), |i: int| value_doc(values[i]))
}

/// The members that a sequence of name and value pairs stands for.
pub open spec fn pair_members(pairs: Seq<(String, serde_json::Value)>) -> Seq<JsonMember> {
    Seq::new(pairs.len(), |i: int| JsonMember { name: pairs[i].0@, value: value_doc(pairs[i].1) })
}

/// `serde_json::Value::Null`.
#[verifier::external_body]
fn value_null() -> (value: serde_json::Value)
    ensures
        value_doc(value) == JsonDoc::Null,
{
    serde_json::Value::Null
}

/// `serde_json::Value::Bool` around a truth value.
#[verifier::external_body]
fn value_bool(b: bool) -> (value: serde_json::Value)
    ensures
        value_doc(value) == JsonDoc::Bool(b),
{
    serde_json::Value::Bool(b)
}

/// `serde_json::Value::Number` around `serde_json::Number::from` an `i64`:
/// the number without fraction or exponent.
#[verifier::external_body]
fn value_int(n: i64) -> (value: serde_json::Value)
    ensures
        value_doc(value) == JsonDoc::Int(n as int),
{
    serde_json::Value::Number(serde_json::Number::from(n))
}

/// `serde_json::Value::String` around a text.
#[verifier::external_body]
fn value_string(s: String) -> (value: serde_json::Value)
    ensures
        value_doc(value) == JsonDoc::Str(s@),
{
    serde_json::Value::String(s)
}

/// `serde_json::Value::Array` around the elements, in order.
#[verifier::external_body]
fn value_array(items: Vec<serde_json::Value>) -> (value: serde_json::Value)
    ensures
        value_doc(value) == JsonDoc::Array(value_docs(items@)),
{
    serde_json::Value::Array(items)
}

/// `serde_json::Value::Object` around a `serde_json::Map` collected from the
/// pairs. The map keeps the members in the order of insertion. The names must
/// differ, since a map holds each key once.
#[verifier::external_body]
fn value_object(pairs: Vec<(String, serde_json::Value)>) -> (value: serde_json::Value)
    requires
        distinct_names(pair_members(pairs@)),
    ensures
        value_doc(value) == JsonDoc::Object(pair_members(pairs@)),
{
    serde_json::Value::Object(pairs.into_iter().collect())
}

/// Builds the `serde_json::Value` with the same content.
#[verifier::loop_isolation(false)]
fn to_value(doc: &Json) -> (value: serde_json::Value)
    requires
        doc@.well_formed(),
    ensures
        value_doc(value) == doc@,
    decreases doc,
{
    match doc {
        Json::Null => value_null(),
        Json::Bool(b) => value_bool(*b),
        Json::Int(n) => value_int(*n),
        Json::Str(s) => value_string(s.clone()),
        Json::Array(items) => {
            assert(doc@ matches JsonDoc::Array(ds) && ds =~= docs_of(items@));
            let mut values: Vec<serde_json::Value> = Vec::new();
            let mut i: usize = 0;
            while i < items.len()
                invariant
                    i <= items.len(),
                    values@.len() == i,
                    forall|k: int| 0 <= k < i ==> value_doc(#[trigger] values@[k]) == items@[k]@,
                decreases items.len() - i,
            {
                assert(docs_of(items@)[i as int] == items@[i as int]@);
                values.push(to_value(&items[i]));
                i += 1;
            }
            assert(value_docs(values@) =~= docs_of(items@));
            value_array(values)
        },
        Json::Object(fields) => {
            assert(doc@ matches JsonDoc::Object(ms) && ms =~= field_members(fields@));
            let mut pairs: Vec<(String, serde_json::Value)> = Vec::new();
            let mut i: usize = 0;
            while i < fields.len()
                invariant
                    i <= fields.len(),
                    pairs@.len() == i,
                    forall|k: int|
                        0 <= k < i ==> (#[trigger] pairs@[k]).0@ == fields@[k].name@ && value_doc(
                            pairs@[k].1,
                        ) == fields@[k].value@,
                decreases fields.len() - i,
            {
                assert(field_members(fields@)[i as int].value == fields@[i as int].value@);
                pairs.push((fields[i].name.clone(), to_value(&fields[i].value)));
                i += 1;
            }
            assert(pair_members(pairs@) =~= field_members(fields@));
            value_object(pairs)
        },
    }
}

/// `serde_json::to_string_pretty` on a `Value`: whether it succeeds, and the
/// text it gives, depend on the document that the value holds and on nothing
/// else. Nothing is said of which documents it prints.
#[verifier::external_body]
fn value_to_pretty(value: &serde_json::Value) -> (result: Result<String, serde_json::Error>)
    ensures
        match result {
            Ok(text) => pretty_text(value_doc(*value)) == Some(text@),
            Err(_) => pretty_text(value_doc(*value)) is None,
        },
{
    serde_json::to_string_pretty(value)
}

/// Prints a document with indentation: gives the text that the printer
/// gives for the document, and nothing where the printer reports a failure.
pub(crate) fn render_pretty(doc: &Json) -> (text: Option<String>)
    requires
        doc@.well_formed(),
    ensures
        text_of(text) == pretty_text(doc@),
{
    let value = to_value(doc);
    match value_to_pretty(&value) {
        Ok(t) => Some(t),
        Err(_) => None,
    }
}

/// Tests whether the names of the fields differ from each other.
pub fn has_distinct_names(fields: &Vec<JsonField>) -> (distinct: bool)
    ensures
        distinct == distinct_names(field_members(fields@)),
{
    let ghost members = field_members(fields@);
    let mut j: usize = 0;
    while j < fields.len()
        invariant
            j <= fields.len(),
            members == field_members(fields@),
            forall|a: int, b: int|
                0 <= a < b < j ==> (#[trigger] members[a]).name != (#[trigger] members[b]).name,
        decreases fields.len() - j,
    {
        let mut i: usize = 0;
        while i < j
            invariant
                i <= j < fields.len(),
                members == field_members(fields@),
                forall|a: int| 0 <= a < i ==> (#[trigger] members[a]).name != members[j as int].name,
            decreases j - i,
        {
            if fields[i].name == fields[j].name {
                assert(members[i as int].name == members[j as int].name);
                return false;
            }
            i += 1;
        }
        j += 1;
    }
    true
}

/// Tests whether a value is well formed: no object in it has two members of
/// the same name.
#[verifier::loop_isolation(false)]
pub fn is_well_formed(doc: &Json) -> (ok: bool)
    ensures
        ok == doc@.well_formed(),
    decreases doc,
{
    match doc {
        Json::Array(items) => {
            let mut i: usize = 0;
            while i < items.len()
                invariant
                    i <= items.len(),
                    forall|k: int| 0 <= k < i ==> (#[trigger] items@[k])@.well_formed(),
                decreases items.len() - i,
            {
                if !is_well_formed(&items[i]) {
                    assert(doc@ matches JsonDoc::Array(ds) && ds[i as int] == items@[i as int]@);
                    return false;
                }
                i += 1;
            }
            assert(doc@ matches JsonDoc::Array(ds) && ds =~= docs_of(items@));
            true
        },
        Json::Object(fields) => {
            let mut i: usize = 0;
            while i < fields.len()
                invariant
                    i <= fields.len(),
                    forall|k: int| 0 <= k < i ==> (#[trigger] fields@[k]).value@.well_formed(),
                decreases fields.len() - i,
            {
                if !is_well_formed(&fields[i].value) {
                    assert(doc@ matches JsonDoc::Object(ms) && ms[i as int].value
                        == fields@[i as int].value@);
                    return false;
                }
                i += 1;
            }
            assert(doc@ matches JsonDoc::Object(ms) && ms =~= field_members(fields@));
            has_distinct_names(fields)
        },
        _ => true,
    }
}

/// Prints a value with indentation. A value that is well formed yields what
/// the printer gives for its document; a value that is not yields nothing.
pub fn render(doc: &Json) -> (text: Option<String>)
    ensures
        text_of(text) == (if doc@.well_formed() {
            pretty_text(doc@)
        } else {
            None
        }),
{
    if is_well_formed(doc) {
        render_pretty(doc)
    } else {
        None
    }
}

/// `serde_json::from_str` for a `Value`: succeeds exactly on the texts that
/// are JSON, with the document read.
#[verifier::external_body]
pub(crate) fn parse_value(text: &str) -> (result: Result<serde_json::Value, serde_json::Error>)
    ensures
        match result {
            Ok(value) => parsed_json(text@) == Some(value_doc(value)),
            Err(_) => parsed_json(text@) is None,
        },
{
    serde_json::from_str::<serde_json::Value>(text)
}

/// `Value::as_str`: the text of a string value, `None` for any other value.
#[verifier::external_body]
pub(crate) fn value_as_str<'a>(value: &'a serde_json::Value) -> (text: Option<&'a str>)
    ensures
        match text {
            Some(s) => value_doc(*value) == JsonDoc::Str(s@),
            None => !(value_doc(*value) is Str),
        },
{
    value.as_str()
}

/// `Value::as_array`: the elements of an array value, `None` for any other
/// value.
#[verifier::external_body]
pub(crate) fn value_as_array<'a>(value: &'a serde_json::Value) -> (items: Option<
    &'a Vec<serde_json::Value>,
>)
    ensures
        match items {
            Some(list) => value_doc(*value) == JsonDoc::Array(value_docs(list@)),
            None => !(value_doc(*value) is Array),
        },
{
    value.as_array()
}

/// `Value::as_object` and `Map::iter`: the members of an object value in the
/// map's order, each name once; `None` for any other value.
#[verifier::external_body]
pub(crate) fn value_members(value: &serde_json::Value) -> (members: Option<
    Vec<(String, serde_json::Value)>,
>)
    ensures
        match members {
            Some(pairs) => {
                &&& value_doc(*value) == JsonDoc::Object(pair_members(pairs@))
                &&& distinct_names(pair_members(pairs@))
            },
            None => !(value_doc(*value) is Object),
        },
{
    value.as_object().map(|m| m.iter().map(|(k, v)| (k.clone(), v.clone())).collect())
}

/// Finds the first pair called `name`.
pub fn find_pair(pairs: &Vec<(String, serde_json::Value)>, name: &str) -> (found: Option<usize>)
    ensures
        match found {
            Some(i) => {
                &&& i < pairs.len()
                &&& find_member(pair_members(pairs@), name@) == Some(value_doc(pairs@[i as int].1))
            },
            None => find_member(pair_members(pairs@), name@) is None,
        },
{
    let ghost members = pair_members(pairs@);
    let wanted = name.to_owned();
    let mut i: usize = 0;
    assert(members.skip(0) =~= members);
    while i < pairs.len()
        invariant
            i <= pairs.len(),
            members == pair_members(pairs@),
            wanted@ == name@,
            find_member(members, name@) == find_member(members.skip(i as int), name@),
        decreases pairs.len() - i,
    {
        assert(members.skip(i as int).drop_first() =~= members.skip(i + 1));
        assert(members.skip(i as int)[0] == members[i as int]);
        if pairs[i].0 == wanted {
            return Some(i);
        }
        i += 1;
    }
    None
}

} // verus!
