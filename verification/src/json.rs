//! A plain model of JSON documents, rich enough for this API's payloads:
//! null, booleans, integers, text, arrays and objects (ordered key/value
//! lists). Field lookup returns the first entry with a matching key.

use vstd::prelude::*;

verus! {

use vstd::string::*;

use crate::Error;

/// One JSON document. Numbers are integral: the payloads this client
/// consumes carry no fractional values.
#[derive(Debug)]
pub enum JsonValue {
    Null,
    Bool(bool),
    Int(i64),
    Text(String),
    Arr(Vec<JsonValue>),
    Obj(Vec<(String, JsonValue)>),
}

/// The first entry of `entries` whose key reads `name`, if any.
pub open spec fn lookup_entries(entries: Seq<(String, JsonValue)>, name: Seq<char>) -> Option<
    JsonValue,
>
    decreases entries.len(),
{
    if entries.len() == 0 {
        None
    } else if entries.first().0@ == name {
        Some(entries.first().1)
    } else {
        lookup_entries(entries.drop_first(), name)
    }
}

/// Field lookup on a document: `None` unless `v` is an object with an
/// entry named `name`.
pub open spec fn spec_get(v: JsonValue, name: Seq<char>) -> Option<JsonValue> {
    match v {
        JsonValue::Obj(entries) => lookup_entries(entries@, name),
        _ => None,
    }
}

impl JsonValue {
    /// Looks `name` up in this document, mirroring `spec_get`.
    pub fn get<'a>(&'a self, name: &str) -> (r: Option<&'a JsonValue>)
        ensures
            match r {
                Some(x) => spec_get(*self, name@) == Some(*x),
                None => spec_get(*self, name@) is None,
            },
    {
        match self {
            JsonValue::Obj(entries) => {
                let key: String = name.to_owned();
                let mut i: usize = 0;
                proof {
                    assert(entries@.skip(0) =~= entries@);
                }
                while i < entries.len()
                    invariant
                        i <= entries@.len(),
                        key@ == name@,
                        spec_get(*self, name@) == lookup_entries(entries@, name@),
                        lookup_entries(entries@, name@) == lookup_entries(
                            entries@.skip(i as int),
                            name@,
                        ),
                    decreases entries@.len() - i,
                {
                    let pair = &entries[i];
                    proof {
                        assert(entries@.skip(i as int).first() == entries@[i as int]);
                        assert(entries@.skip(i as int).drop_first() =~= entries@.skip(
                            i as int + 1,
                        ));
                    }
                    if pair.0 == key {
                        proof {
                            assert(entries@.skip(i as int).first().0@ == name@);
                            assert(lookup_entries(entries@.skip(i as int), name@) == Some(
                                entries@[i as int].1,
                            ));
                        }
                        return Some(&pair.1);
                    }
                    i = i + 1;
                }
                proof {
                    assert(entries@.skip(entries@.len() as int) =~= Seq::<
                        (String, JsonValue),
                    >::empty());
                }
                None
            },
            _ => None,
        }
    }
}

/// A type that can be read out of a JSON document. `json_ok` says which
/// documents are structurally valid for the type, `of_json` which value
/// (as the type's mathematical view) a valid document denotes, and
/// `from_json` computes that value, failing with a decode error on every
/// other document.
pub trait FromJson: View + Sized {
    spec fn json_ok(v: JsonValue) -> bool;

    spec fn of_json(v: JsonValue) -> Self::V;

    fn from_json(v: &JsonValue) -> (r: Result<Self, Error>)
        ensures
            Self::json_ok(*v) ==> (r matches Ok(d) && d@ == Self::of_json(*v)),
            !Self::json_ok(*v) ==> (r matches Err(Error::Deserialize { .. })),
    ;
}

/// What decoding a whole document into `D` yields: the view of the
/// denoted value when the document is structurally valid, nothing
/// otherwise.
pub open spec fn spec_decode<D: FromJson>(doc: JsonValue) -> Option<D::V> {
    if D::json_ok(doc) {
        Some(D::of_json(doc))
    } else {
        None
    }
}

/// What decoding the field `name` of `doc` into `D` yields: the decode of
/// the sub-document when the field is present, nothing otherwise.
pub open spec fn spec_decode_field<D: FromJson>(doc: JsonValue, name: Seq<char>) -> Option<D::V> {
    match spec_get(doc, name) {
        Some(sub) => spec_decode::<D>(sub),
        None => None,
    }
}

/// The diagnostic a lookup of an absent field carries.
pub open spec fn missing_field_msg(name: Seq<char>) -> Seq<char> {
    "missing field `"@ + name + "`"@
}

/// Law: an envelope's held document never changes, so any two decodes of
/// the same document that succeed denote one and the same value.
pub proof fn lemma_decode_repeatable<D: FromJson>(doc: JsonValue, m1: D::V, m2: D::V)
    requires
        spec_decode::<D>(doc) == Some(m1),
        spec_decode::<D>(doc) == Some(m2),
    ensures
        m1 == m2,
{
}

/// Law: decoding a present field yields exactly what decoding its
/// sub-document as a whole yields.
pub proof fn lemma_decode_field_agrees<D: FromJson>(doc: JsonValue, name: Seq<char>, sub: JsonValue)
    requires
        spec_get(doc, name) == Some(sub),
    ensures
        spec_decode_field::<D>(doc, name) == spec_decode::<D>(sub),
{
}

/// The entries of `v` when it is an object, the empty sequence otherwise.
pub open spec fn spec_obj_entries(v: JsonValue) -> Seq<(String, JsonValue)> {
    match v {
        JsonValue::Obj(e) => e@,
        _ => Seq::<(String, JsonValue)>::empty(),
    }
}

/// The sub-document under field `name` of `v`, defaulting to null when
/// absent; meant to be read under a guard that the field is present.
pub open spec fn spec_sub(v: JsonValue, name: Seq<char>) -> JsonValue {
    match spec_get(v, name) {
        Some(s) => s,
        None => JsonValue::Null,
    }
}

/// The decode error for a field that is absent where a sub-document was
/// required.
pub fn absent_field_error(name: &str) -> (r: Error)
    ensures
        r matches Error::Deserialize { .. },
{
    field_error("missing", name)
}

/// Whether field `name` of `v` is present and holds text.
pub open spec fn spec_text_ok(v: JsonValue, name: Seq<char>) -> bool {
    spec_get(v, name) matches Some(JsonValue::Text(_))
}

/// The text field `name` of `v` holds.
pub open spec fn spec_text(v: JsonValue, name: Seq<char>) -> Seq<char>
    recommends
        spec_text_ok(v, name),
{
    match spec_get(v, name) {
        Some(JsonValue::Text(s)) => s@,
        _ => Seq::<char>::empty(),
    }
}

/// Whether field `name` of `v` is present and holds an integer.
pub open spec fn spec_int_ok(v: JsonValue, name: Seq<char>) -> bool {
    spec_get(v, name) matches Some(JsonValue::Int(_))
}

/// The integer field `name` of `v` holds.
pub open spec fn spec_int(v: JsonValue, name: Seq<char>) -> i64
    recommends
        spec_int_ok(v, name),
{
    match spec_get(v, name) {
        Some(JsonValue::Int(n)) => n,
        _ => 0,
    }
}

fn field_error(kind: &str, name: &str) -> (r: Error)
    ensures
        r matches Error::Deserialize { .. },
{
    let mut m = String::from_str(kind);
    m.append(" field `");
    m.append(name);
    m.append("`");
    Error::Deserialize { message: m }
}

/// Reads the text field `name` of `v`, as an owned copy.
pub fn get_text(v: &JsonValue, name: &str) -> (r: Result<String, Error>)
    ensures
        spec_text_ok(*v, name@) ==> (r matches Ok(s) && s@ == spec_text(*v, name@)),
        !spec_text_ok(*v, name@) ==> (r matches Err(Error::Deserialize { .. })),
{
    match v.get(name) {
        Some(JsonValue::Text(s)) => Ok(s.clone()),
        Some(_) => Err(field_error("invalid", name)),
        None => Err(field_error("missing", name)),
    }
}

/// Reads the integer field `name` of `v`.
pub fn get_int(v: &JsonValue, name: &str) -> (r: Result<i64, Error>)
    ensures
        spec_int_ok(*v, name@) ==> (r matches Ok(n) && n == spec_int(*v, name@)),
        !spec_int_ok(*v, name@) ==> (r matches Err(Error::Deserialize { .. })),
{
    match v.get(name) {
        Some(JsonValue::Int(n)) => Ok(*n),
        Some(_) => Err(field_error("invalid", name)),
        None => Err(field_error("missing", name)),
    }
}

/// Reads the integer field `name` of `v`, accepting only values in
/// `lo ..= hi` (the range of the narrower type the caller stores).
pub fn get_int_range(v: &JsonValue, name: &str, lo: i64, hi: i64) -> (r: Result<i64, Error>)
    ensures
        (spec_int_ok(*v, name@) && lo <= spec_int(*v, name@) <= hi) ==> (r matches Ok(n) && n
            == spec_int(*v, name@)),
        !(spec_int_ok(*v, name@) && lo <= spec_int(*v, name@) <= hi) ==> (r matches Err(
            Error::Deserialize { .. },
        )),
{
    match get_int(v, name) {
        Ok(n) => if lo <= n && n <= hi {
            Ok(n)
        } else {
            Err(field_error("invalid", name))
        },
        Err(e) => Err(e),
    }
}

} // verus!
