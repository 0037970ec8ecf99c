//! Typed client core for a game-statistics JSON API.
//!
//! A caller picks a category (user, faction), accumulates selections,
//! and sends one request through a pluggable transport; the response is
//! triaged for API-level errors and then decoded into typed values.

use vstd::prelude::*;

pub mod faction;
pub mod json;
pub mod numfmt;
pub mod user;

verus! {

use vstd::string::*;

use core::marker::PhantomData;
use crate::json::{
    FromJson, JsonValue, missing_field_msg, spec_decode, spec_decode_field, spec_get,
};
use crate::numfmt::{i64_to_dec, spec_i64_dec, spec_u64_dec, u64_to_dec};

/// The closed set of failures a request can end in: the remote service
/// reported an error, the transport failed, or the payload did not decode.
#[derive(Debug)]
pub enum Error {
    Api { code: u8, reason: String },
    Transport { message: String },
    Deserialize { message: String },
}

/// A well-formed API error payload: an object whose `code` is an integer
/// in `u8` range and whose `error` is text. Extra fields are ignored.
pub open spec fn spec_error_payload(e: JsonValue) -> Option<(u8, Seq<char>)> {
    match (spec_get(e, "code"@), spec_get(e, "error"@)) {
        (Some(JsonValue::Int(c)), Some(JsonValue::Text(s))) => if 0 <= c <= 255 {
            Some((c as u8, s@))
        } else {
            None
        },
        _ => None,
    }
}

/// The envelope around one successful response document. Construction
/// rejects documents that carry a top-level `error` field, so a held
/// document is always a success payload; it is immutable and may be
/// decoded any number of times.
pub struct ApiResponse {
    value: JsonValue,
}

impl View for ApiResponse {
    type V = JsonValue;

    closed spec fn view(&self) -> JsonValue {
        self.value
    }
}

impl ApiResponse {
    /// Triage of one raw document: a well-formed `error` object becomes an
    /// API error with its exact code and reason, a malformed one a decode
    /// error, and anything else is wrapped unchanged.
    pub fn from_value(value: JsonValue) -> (r: Result<ApiResponse, Error>)
        ensures
            (match spec_get(value, "error"@) {
                None => r matches Ok(resp) && resp@ == value,
                Some(e) => match spec_error_payload(e) {
                    Some(p) => r matches Err(Error::Api { code, reason }) && code == p.0
                        && reason@ == p.1,
                    None => r matches Err(Error::Deserialize { .. }),
                },
            }),
    {
        match value.get("error") {
            None => Ok(ApiResponse { value }),
            Some(e) => match (e.get("code"), e.get("error")) {
                (Some(JsonValue::Int(n)), Some(JsonValue::Text(t))) => {
                    if 0 <= *n && *n <= 255 {
                        Err(Error::Api { code: *n as u8, reason: t.clone() })
                    } else {
                        Err(Error::Deserialize {
                            message: String::from_str("api error payload is malformed"),
                        })
                    }
                },
                _ => Err(Error::Deserialize {
                    message: String::from_str("api error payload is malformed"),
                }),
            },
        }
    }

    /// Decodes the whole held document into `D`; the envelope is read,
    /// never changed, so every decode of one envelope yields the same
    /// result.
    pub fn decode<D: FromJson>(&self) -> (r: Result<D, Error>)
        ensures
            (match spec_decode::<D>(self@) {
                Some(m) => r matches Ok(d) && d@ == m,
                None => r matches Err(Error::Deserialize { .. }),
            }),
    {
        D::from_json(&self.value)
    }

    /// Decodes one named top-level field of the held document into `D`; an
    /// absent field is a decode error naming the field.
    pub fn decode_field<D: FromJson>(&self, field: &str) -> (r: Result<D, Error>)
        ensures
            (match spec_get(self@, field@) {
                Some(_) => match spec_decode_field::<D>(self@, field@) {
                    Some(m) => r matches Ok(d) && d@ == m,
                    None => r matches Err(Error::Deserialize { .. }),
                },
                None => r matches Err(Error::Deserialize { message }) && message@
                    == missing_field_msg(field@),
            }),
    {
        match self.value.get(field) {
            Some(sub) => D::from_json(sub),
            None => {
                let mut m = String::from_str("missing field `");
                m.append(field);
                m.append("`");
                Err(Error::Deserialize { message: m })
            },
        }
    }
}

/// One selectable sub-resource of a category. Every variant has a fixed
/// wire token, and the whole enumeration belongs to exactly one category,
/// named by a fixed token of its own.
pub trait ApiSelection {
    spec fn spec_token(&self) -> Seq<char>;

    spec fn spec_category() -> Seq<char>;

    fn raw_value(&self) -> (r: &'static str)
        ensures
            r@ == self.spec_token(),
    ;

    fn category() -> (r: &'static str)
        ensures
            r@ == Self::spec_category(),
    ;
}

/// A typed per-category response. The associated `Selection` type pins
/// which selections may be requested for it; `from_response` wraps one
/// envelope and cannot fail.
pub trait ApiCategoryResponse: Sized {
    type Selection: ApiSelection;

    spec fn spec_wraps(&self, doc: JsonValue) -> bool;

    fn from_response(response: ApiResponse) -> (r: Self)
        ensures
            r.spec_wraps(response@),
    ;
}

/// The transport capability: issue one GET for a complete URL and hand
/// back the parsed JSON body, or fail. Implementations live outside this
/// crate; nothing is assumed of what they return.
pub trait ApiClient {
    fn request(&self, url: String) -> Result<JsonValue, Error>;

    fn torn_api<'a>(&'a self, key: String) -> TornApi<'a, Self> where Self: Sized;
}

/// The entry point: one borrowed transport and one credential, handing out
/// per-category request builders.
pub struct TornApi<'client, C> {
    client: &'client C,
    key: String,
}

impl<'client, C> View for TornApi<'client, C> {
    type V = Seq<char>;

    closed spec fn view(&self) -> Seq<char> {
        self.key@
    }
}

impl<'client, C> TornApi<'client, C> where C: ApiClient {
    pub fn from_client(client: &'client C, key: String) -> (r: Self)
        ensures
            r@ == key@,
    {
        Self { client, key }
    }

    /// A fresh builder for the user category, aimed at the given entity
    /// id, or at the key's own user when no id is given.
    pub fn user(self, id: Option<u64>) -> (r: ApiRequestBuilder<'client, C, user::Response>)
        ensures
            r@ == spec_fresh_builder(self@, id),
    {
        ApiRequestBuilder::new(self.client, self.key, id)
    }

    /// A fresh builder for the faction category, aimed at the given
    /// entity id, or at the key's own faction when no id is given.
    pub fn faction(self, id: Option<u64>) -> (r: ApiRequestBuilder<'client, C, faction::Response>)
        ensures
            r@ == spec_fresh_builder(self@, id),
    {
        ApiRequestBuilder::new(self.client, self.key, id)
    }
}

/// The abstract state of a request builder: the credential, the selection
/// tokens in the order they were added, and the optional id, time range
/// and comment.
pub struct BuilderSpec {
    pub key: Seq<char>,
    pub selections: Seq<Seq<char>>,
    pub id: Option<u64>,
    pub from: Option<i64>,
    pub to: Option<i64>,
    pub comment: Option<Seq<char>>,
}

/// The state a fresh builder starts from: no selections, no range, no
/// comment.
pub open spec fn spec_fresh_builder(key: Seq<char>, id: Option<u64>) -> BuilderSpec {
    BuilderSpec { key, selections: Seq::empty(), id, from: None, to: None, comment: None }
}

/// `parts` joined with `sep` between consecutive parts.
pub open spec fn spec_join(parts: Seq<Seq<char>>, sep: Seq<char>) -> Seq<char>
    decreases parts.len(),
{
    if parts.len() == 0 {
        Seq::empty()
    } else if parts.len() == 1 {
        parts.first()
    } else {
        parts.first() + sep + spec_join(parts.drop_first(), sep)
    }
}

proof fn lemma_join_push(parts: Seq<Seq<char>>, sep: Seq<char>, last: Seq<char>)
    ensures
        spec_join(parts.push(last), sep) == if parts.len() == 0 {
            last
        } else {
            spec_join(parts, sep) + sep + last
        },
    decreases parts.len(),
{
    if parts.len() == 0 {
        assert(parts.push(last).first() == last);
    } else {
        assert(parts.push(last).drop_first() =~= parts.drop_first().push(last));
        lemma_join_push(parts.drop_first(), sep, last);
        assert(spec_join(parts.push(last), sep) =~= spec_join(parts, sep) + sep + last);
    }
}

/// The optional tail of the query string: the range bounds in Unix
/// seconds and the comment, each only when set, all unencoded.
pub open spec fn spec_query_options(v: BuilderSpec) -> Seq<char> {
    (match v.from {
        Some(f) => "&from="@ + spec_i64_dec(f as int),
        None => Seq::<char>::empty(),
    }) + (match v.to {
        Some(t) => "&to="@ + spec_i64_dec(t as int),
        None => Seq::<char>::empty(),
    }) + (match v.comment {
        Some(c) => "&comment="@ + c,
        None => Seq::<char>::empty(),
    })
}

/// The query string: the comma-joined selections (an empty list still
/// yields the `selections=` parameter with an empty value), the
/// credential verbatim, then the optional tail.
pub open spec fn spec_query(v: BuilderSpec) -> Seq<char> {
    "selections="@ + spec_join(v.selections, ","@) + "&key="@ + v.key + spec_query_options(v)
}

/// Law: a builder with no selections still sends the `selections=`
/// parameter, with an empty value directly before the `&` of the next
/// parameter, rather than omitting it.
pub proof fn lemma_empty_selections_query(v: BuilderSpec)
    requires
        v.selections.len() == 0,
    ensures
        spec_query(v) == "selections=&key="@ + v.key + spec_query_options(v),
{
    reveal_strlit("selections=");
    reveal_strlit("&key=");
    reveal_strlit("selections=&key=");
    assert(spec_query(v) =~= "selections=&key="@ + v.key + spec_query_options(v));
}

/// Law: a builder with no entity id keeps both path separators: the
/// category token is followed immediately by `/?`, leaving the id segment
/// empty rather than dropping it.
pub proof fn lemma_absent_id_url(category: Seq<char>, v: BuilderSpec)
    requires
        v.id is None,
    ensures
        spec_url(category, v) == "https://api.torn.com/"@ + category + "/?"@ + spec_query(v),
{
    reveal_strlit("/");
    reveal_strlit("?");
    reveal_strlit("/?");
    assert(spec_url(category, v) =~= "https://api.torn.com/"@ + category + "/?"@ + spec_query(v));
}

/// The id path segment: the decimal id, or empty when no entity id was
/// given (which leaves the two separators around it adjacent).
pub open spec fn spec_id_fragment(id: Option<u64>) -> Seq<char> {
    match id {
        Some(n) => spec_u64_dec(n as int),
        None => Seq::<char>::empty(),
    }
}

/// The complete request URL for a category token and a builder state.
pub open spec fn spec_url(category: Seq<char>, v: BuilderSpec) -> Seq<char> {
    "https://api.torn.com/"@ + category + "/"@ + spec_id_fragment(v.id) + "?"@ + spec_query(v)
}

/// Accumulates one request: selections, entity id, time range and comment,
/// then assembles the URL, drives the transport once, and triages and
/// types the response.
pub struct ApiRequestBuilder<'client, C, A> where C: ApiClient, A: ApiCategoryResponse {
    client: &'client C,
    key: String,
    phantom: PhantomData<A>,
    selections: Vec<&'static str>,
    id: Option<u64>,
    from: Option<i64>,
    to: Option<i64>,
    comment: Option<String>,
}

impl<'client, C, A> View for ApiRequestBuilder<'client, C, A> where
    C: ApiClient,
    A: ApiCategoryResponse,
 {
    type V = BuilderSpec;

    closed spec fn view(&self) -> BuilderSpec {
        BuilderSpec {
            key: self.key@,
            selections: self.selections@.map_values(|s: &'static str| s@),
            id: self.id,
            from: self.from,
            to: self.to,
            comment: match self.comment {
                Some(c) => Some(c@),
                None => None,
            },
        }
    }
}

impl<'client, C, A> ApiRequestBuilder<'client, C, A> where
    C: ApiClient,
    A: ApiCategoryResponse,
 {
    pub(crate) fn new(client: &'client C, key: String, id: Option<u64>) -> (r: Self)
        ensures
            r@ == spec_fresh_builder(key@, id),
    {
        let r = Self {
            client,
            key,
            phantom: PhantomData,
            selections: Vec::new(),
            id,
            from: None,
            to: None,
            comment: None,
        };
        proof {
            assert(r@.selections =~= Seq::<Seq<char>>::empty());
        }
        r
    }

    /// Appends the given selections' wire tokens, in order, after those
    /// already accumulated; duplicates are kept.
    pub fn selections(self, selections: &[A::Selection]) -> (r: Self)
        ensures
            r@ == (BuilderSpec {
                selections: self@.selections + selections@.map_values(
                    |s: A::Selection| s.spec_token(),
                ),
                ..self@
            }),
    {
        let Self { client, key, phantom, selections: mut tokens, id, from, to, comment } = self;
        let ghost pre: Seq<Seq<char>> = tokens@.map_values(|s: &'static str| s@);
        let mut j: usize = 0;
        while j < selections.len()
            invariant
                j <= selections@.len(),
                tokens@.map_values(|s: &'static str| s@) =~= pre + selections@.take(
                    j as int,
                ).map_values(|s: A::Selection| s.spec_token()),
            decreases selections@.len() - j,
        {
            let tok = selections[j].raw_value();
            let ghost tokens_pre: Seq<&'static str> = tokens@;
            tokens.push(tok);
            proof {
                assert(tok@ == selections@[j as int].spec_token());
                assert(tokens@.map_values(|s: &'static str| s@) =~= tokens_pre.map_values(
                    |s: &'static str| s@,
                ).push(tok@));
                assert(selections@.take(j as int + 1) =~= selections@.take(j as int).push(
                    selections@[j as int],
                ));
                assert(selections@.take(j as int + 1).map_values(|s: A::Selection| s.spec_token())
                    =~= selections@.take(j as int).map_values(|s: A::Selection| s.spec_token()).push(
                    selections@[j as int].spec_token(),
                ));
                assert(tokens@.map_values(|s: &'static str| s@) =~= pre + selections@.take(
                    j as int + 1,
                ).map_values(|s: A::Selection| s.spec_token()));
            }
            j = j + 1;
        }
        proof {
            assert(selections@.take(selections@.len() as int) =~= selections@);
        }
        let r = Self { client, key, phantom, selections: tokens, id, from, to, comment };
        r
    }

    /// Sets the inclusive lower time bound, as Unix seconds.
    pub fn from(self, from: i64) -> (r: Self)
        ensures
            r@ == (BuilderSpec { from: Some(from), ..self@ }),
    {
        Self { from: Some(from), ..self }
    }

    /// Sets the inclusive upper time bound, as Unix seconds.
    pub fn to(self, to: i64) -> (r: Self)
        ensures
            r@ == (BuilderSpec { to: Some(to), ..self@ }),
    {
        Self { to: Some(to), ..self }
    }

    /// Sets the free-text comment.
    pub fn comment(self, comment: String) -> (r: Self)
        ensures
            r@ == (BuilderSpec { comment: Some(comment@), ..self@ }),
    {
        Self { comment: Some(comment), ..self }
    }

    /// Assembles the request URL exactly as `spec_url` describes, from the
    /// category token and the accumulated state.
    #[verifier::rlimit(100)]
    pub fn build_url(&self) -> (r: String)
        ensures
            r@ == spec_url(<A::Selection as ApiSelection>::spec_category(), self@),
    {
        let mut url = String::from_str("https://api.torn.com/");
        url.append(<A::Selection as ApiSelection>::category());
        url.append("/");
        match self.id {
            Some(id) => {
                let d = u64_to_dec(id);
                url.append(d.as_str());
            },
            None => {},
        }
        url.append("?");
        let ghost base: Seq<char> = url@;
        url.append("selections=");
        let mut i: usize = 0;
        proof {
            assert(self@.selections.take(0) =~= Seq::<Seq<char>>::empty());
        }
        while i < self.selections.len()
            invariant
                i <= self.selections@.len(),
                self@.selections == self.selections@.map_values(|s: &'static str| s@),
                url@ == base + "selections="@ + spec_join(self@.selections.take(i as int), ","@),
            decreases self.selections@.len() - i,
        {
            if i > 0 {
                url.append(",");
            }
            url.append(self.selections[i]);
            proof {
                assert(self@.selections.take(i as int + 1) =~= self@.selections.take(
                    i as int,
                ).push(self@.selections[i as int]));
                lemma_join_push(self@.selections.take(i as int), ","@, self@.selections[i as int]);
                assert(url@ =~= base + "selections="@ + spec_join(
                    self@.selections.take(i as int + 1),
                    ","@,
                ));
            }
            i = i + 1;
        }
        proof {
            assert(self@.selections.take(self.selections@.len() as int) =~= self@.selections);
        }
        url.append("&key=");
        url.append(self.key.as_str());
        match self.from {
            Some(f) => {
                url.append("&from=");
                let d = i64_to_dec(f);
                url.append(d.as_str());
            },
            None => {},
        }
        match self.to {
            Some(t) => {
                url.append("&to=");
                let d = i64_to_dec(t);
                url.append(d.as_str());
            },
            None => {},
        }
        match &self.comment {
            Some(c) => {
                url.append("&comment=");
                url.append(c.as_str());
            },
            None => {},
        }
        proof {
            assert(url@ =~= spec_url(<A::Selection as ApiSelection>::spec_category(), self@));
        }
        url
    }

    /// Drives one request: build the URL, ask the transport, and triage
    /// whatever came back. A typed response is returned only for a
    /// document with no top-level `error` field; every failure of the
    /// transport or of triage is handed through unchanged.
    pub fn send(self) -> (r: Result<A, Error>)
        ensures
            (r matches Ok(a) ==> exists|doc: JsonValue|
                spec_get(doc, "error"@) is None && a.spec_wraps(doc)),
    {
        let url = self.build_url();
        let res = self.client.request(url);
        match res {
            Ok(value) => {
                let out = handle_response::<A>(value);
                proof {
                    match out {
                        Ok(ref a) => {
                            assert(spec_get(value, "error"@) is None && a.spec_wraps(value));
                        },
                        Err(_) => {},
                    }
                }
                out
            },
            Err(e) => Err(e),
        }
    }
}

/// Turns one raw response document into the typed category response:
/// envelope triage first, then the infallible wrap. This is the whole
/// decision logic of `send` after the transport has answered.
pub fn handle_response<A: ApiCategoryResponse>(value: JsonValue) -> (r: Result<A, Error>)
    ensures
        (match spec_get(value, "error"@) {
            None => r matches Ok(a) && a.spec_wraps(value),
            Some(e) => match spec_error_payload(e) {
                Some(p) => r matches Err(Error::Api { code, reason }) && code == p.0 && reason@
                    == p.1,
                None => r matches Err(Error::Deserialize { .. }),
            },
        }),
{
    match ApiResponse::from_value(value) {
        Ok(resp) => Ok(A::from_response(resp)),
        Err(e) => Err(e),
    }
}

} // verus!
