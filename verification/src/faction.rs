//! The faction category: its selections and the typed fields of its basic
//! payload, including the member roster, which the wire format keys by
//! the member's id rendered as a decimal object key.

use vstd::prelude::*;

verus! {

use crate::{ApiCategoryResponse, ApiResponse, ApiSelection, Error};
use crate::json::{
    FromJson, JsonValue, get_text, spec_decode, spec_get, spec_int, spec_int_ok, spec_obj_entries,
    spec_sub, spec_text, spec_text_ok,
};
use crate::numfmt::{parse_key, spec_key_ok, spec_key_value};
use crate::user::{LastAction, LastActionView, Status, StatusView};

/// The selections a faction request may ask for.
#[derive(Debug, Clone, Copy)]
pub enum Selection {
    Basic,
}

impl ApiSelection for Selection {
    open spec fn spec_token(&self) -> Seq<char> {
        "basic"@
    }

    open spec fn spec_category() -> Seq<char> {
        "faction"@
    }

    fn raw_value(&self) -> (r: &'static str) {
        "basic"
    }

    fn category() -> (r: &'static str) {
        "faction"
    }
}

/// One member of the faction roster.
#[derive(Debug, Clone, PartialEq)]
pub struct Member {
    pub name: String,
    pub level: i16,
    pub days_in_faction: i16,
    pub position: String,
    pub status: Status,
    pub last_action: LastAction,
}

/// The mathematical value of a `Member`.
pub struct MemberView {
    pub name: Seq<char>,
    pub level: i16,
    pub days_in_faction: i16,
    pub position: Seq<char>,
    pub status: StatusView,
    pub last_action: LastActionView,
}

impl View for Member {
    type V = MemberView;

    open spec fn view(&self) -> MemberView {
        MemberView {
            name: self.name@,
            level: self.level,
            days_in_faction: self.days_in_faction,
            position: self.position@,
            status: self.status@,
            last_action: self.last_action@,
        }
    }
}

impl FromJson for Member {
    open spec fn json_ok(v: JsonValue) -> bool {
        &&& spec_text_ok(v, "name"@)
        &&& spec_int_ok(v, "level"@)
        &&& i16::MIN <= spec_int(v, "level"@) <= i16::MAX
        &&& spec_int_ok(v, "days_in_faction"@)
        &&& i16::MIN <= spec_int(v, "days_in_faction"@) <= i16::MAX
        &&& spec_text_ok(v, "position"@)
        &&& spec_get(v, "status"@) is Some
        &&& Status::json_ok(spec_sub(v, "status"@))
        &&& spec_get(v, "last_action"@) is Some
        &&& LastAction::json_ok(spec_sub(v, "last_action"@))
    }

    open spec fn of_json(v: JsonValue) -> MemberView {
        MemberView {
            name: spec_text(v, "name"@),
            level: spec_int(v, "level"@) as i16,
            days_in_faction: spec_int(v, "days_in_faction"@) as i16,
            position: spec_text(v, "position"@),
            status: Status::of_json(spec_sub(v, "status"@)),
            last_action: LastAction::of_json(spec_sub(v, "last_action"@)),
        }
    }

    fn from_json(v: &JsonValue) -> (r: Result<Member, Error>) {
        let name = match get_text(v, "name") {
            Ok(s) => s,
            Err(e) => return Err(e),
        };
        let level = match crate::json::get_int_range(v, "level", i16::MIN as i64, i16::MAX as i64) {
            Ok(n) => n as i16,
            Err(e) => return Err(e),
        };
        let days_in_faction = match crate::json::get_int_range(
            v,
            "days_in_faction",
            i16::MIN as i64,
            i16::MAX as i64,
        ) {
            Ok(n) => n as i16,
            Err(e) => return Err(e),
        };
        let position = match get_text(v, "position") {
            Ok(s) => s,
            Err(e) => return Err(e),
        };
        let status = match v.get("status") {
            Some(sub) => match Status::from_json(sub) {
                Ok(st) => st,
                Err(e) => return Err(e),
            },
            None => return Err(crate::json::absent_field_error("status")),
        };
        let last_action = match v.get("last_action") {
            Some(sub) => match LastAction::from_json(sub) {
                Ok(la) => la,
                Err(e) => return Err(e),
            },
            None => return Err(crate::json::absent_field_error("last_action")),
        };
        Ok(Member { name, level, days_in_faction, position, status, last_action })
    }
}

/// Whether every roster entry, in document order, has a canonical decimal
/// key and a structurally valid member payload.
pub open spec fn spec_members_ok(entries: Seq<(String, JsonValue)>) -> bool
    decreases entries.len(),
{
    if entries.len() == 0 {
        true
    } else {
        &&& spec_members_ok(entries.drop_last())
        &&& spec_key_ok(entries.last().0@)
        &&& Member::json_ok(entries.last().1)
    }
}

/// The decoded roster: each entry's key value paired with its member, in
/// document order.
pub open spec fn spec_members_of(entries: Seq<(String, JsonValue)>) -> Seq<(i32, MemberView)>
    decreases entries.len(),
{
    if entries.len() == 0 {
        Seq::<(i32, MemberView)>::empty()
    } else {
        spec_members_of(entries.drop_last()).push(
            (spec_key_value(entries.last().0@) as i32, Member::of_json(entries.last().1)),
        )
    }
}

proof fn lemma_members_ok_prefix(entries: Seq<(String, JsonValue)>, i: int)
    requires
        0 <= i <= entries.len(),
    ensures
        spec_members_ok(entries) ==> spec_members_ok(entries.take(i)),
    decreases entries.len() - i,
{
    if i < entries.len() {
        lemma_members_ok_prefix(entries, i + 1);
        assert(entries.take(i + 1).drop_last() =~= entries.take(i));
        assert(entries.take(entries.len() as int) =~= entries);
    } else {
        assert(entries.take(i) =~= entries);
    }
}

/// The entries of the `members` object of `v`, when it has one.
pub open spec fn spec_members_entries(v: JsonValue) -> Seq<(String, JsonValue)> {
    match spec_get(v, "members"@) {
        Some(JsonValue::Obj(e)) => e@,
        _ => Seq::<(String, JsonValue)>::empty(),
    }
}

/// The fields the basic faction selection carries.
#[derive(Debug, Clone, PartialEq)]
pub struct Basic {
    pub id: i32,
    pub name: String,
    pub leader: i32,
    pub respect: i32,
    pub age: i16,
    pub capacity: i16,
    pub best_chain: i32,
    pub members: Vec<(i32, Member)>,
}

/// The mathematical value of a faction `Basic`.
pub struct BasicView {
    pub id: i32,
    pub name: Seq<char>,
    pub leader: i32,
    pub respect: i32,
    pub age: i16,
    pub capacity: i16,
    pub best_chain: i32,
    pub members: Seq<(i32, MemberView)>,
}

impl View for Basic {
    type V = BasicView;

    open spec fn view(&self) -> BasicView {
        BasicView {
            id: self.id,
            name: self.name@,
            leader: self.leader,
            respect: self.respect,
            age: self.age,
            capacity: self.capacity,
            best_chain: self.best_chain,
            members: self.members@.map_values(|p: (i32, Member)| (p.0, p.1@)),
        }
    }
}

impl FromJson for Basic {
    open spec fn json_ok(v: JsonValue) -> bool {
        &&& spec_int_ok(v, "ID"@)
        &&& i32::MIN <= spec_int(v, "ID"@) <= i32::MAX
        &&& spec_text_ok(v, "name"@)
        &&& spec_int_ok(v, "leader"@)
        &&& i32::MIN <= spec_int(v, "leader"@) <= i32::MAX
        &&& spec_int_ok(v, "respect"@)
        &&& i32::MIN <= spec_int(v, "respect"@) <= i32::MAX
        &&& spec_int_ok(v, "age"@)
        &&& i16::MIN <= spec_int(v, "age"@) <= i16::MAX
        &&& spec_int_ok(v, "capacity"@)
        &&& i16::MIN <= spec_int(v, "capacity"@) <= i16::MAX
        &&& spec_int_ok(v, "best_chain"@)
        &&& i32::MIN <= spec_int(v, "best_chain"@) <= i32::MAX
        &&& (spec_get(v, "members"@) matches Some(JsonValue::Obj(_)))
        &&& spec_members_ok(spec_members_entries(v))
    }

    open spec fn of_json(v: JsonValue) -> BasicView {
        BasicView {
            id: spec_int(v, "ID"@) as i32,
            name: spec_text(v, "name"@),
            leader: spec_int(v, "leader"@) as i32,
            respect: spec_int(v, "respect"@) as i32,
            age: spec_int(v, "age"@) as i16,
            capacity: spec_int(v, "capacity"@) as i16,
            best_chain: spec_int(v, "best_chain"@) as i32,
            members: spec_members_of(spec_members_entries(v)),
        }
    }

    fn from_json(v: &JsonValue) -> (r: Result<Basic, Error>) {
        let id = match crate::json::get_int_range(v, "ID", i32::MIN as i64, i32::MAX as i64) {
            Ok(n) => n as i32,
            Err(e) => return Err(e),
        };
        let name = match get_text(v, "name") {
            Ok(s) => s,
            Err(e) => return Err(e),
        };
        let leader = match crate::json::get_int_range(v, "leader", i32::MIN as i64, i32::MAX as i64) {
            Ok(n) => n as i32,
            Err(e) => return Err(e),
        };
        let respect = match crate::json::get_int_range(
            v,
            "respect",
            i32::MIN as i64,
            i32::MAX as i64,
        ) {
            Ok(n) => n as i32,
            Err(e) => return Err(e),
        };
        let age = match crate::json::get_int_range(v, "age", i16::MIN as i64, i16::MAX as i64) {
            Ok(n) => n as i16,
            Err(e) => return Err(e),
        };
        let capacity = match crate::json::get_int_range(
            v,
            "capacity",
            i16::MIN as i64,
            i16::MAX as i64,
        ) {
            Ok(n) => n as i16,
            Err(e) => return Err(e),
        };
        let best_chain = match crate::json::get_int_range(
            v,
            "best_chain",
            i32::MIN as i64,
            i32::MAX as i64,
        ) {
            Ok(n) => n as i32,
            Err(e) => return Err(e),
        };
        let members = match v.get("members") {
            Some(sub) => match decode_members(sub) {
                Ok(ms) => ms,
                Err(e) => return Err(e),
            },
            None => return Err(crate::json::absent_field_error("members")),
        };
        Ok(Basic { id, name, leader, respect, age, capacity, best_chain, members })
    }
}

/// Decodes a `members` object into the roster `spec_members_of`
/// describes, in document order.
fn decode_members(sub: &JsonValue) -> (r: Result<Vec<(i32, Member)>, Error>)
    ensures
        (sub matches JsonValue::Obj(_) && spec_members_ok(spec_obj_entries(*sub))) ==> (r matches Ok(
            ms,
        ) && ms@.map_values(|p: (i32, Member)| (p.0, p.1@)) == spec_members_of(
            spec_obj_entries(*sub),
        )),
        !(sub matches JsonValue::Obj(_) && spec_members_ok(spec_obj_entries(*sub))) ==> (r matches Err(
            Error::Deserialize { .. },
        )),
{
    match sub {
        JsonValue::Obj(entries) => {
            let mut out: Vec<(i32, Member)> = Vec::new();
            let mut i: usize = 0;
            proof {
                assert(entries@.take(0) =~= Seq::<(String, JsonValue)>::empty());
                assert(out@.map_values(|p: (i32, Member)| (p.0, p.1@)) =~= Seq::<
                    (i32, MemberView),
                >::empty());
            }
            while i < entries.len()
                invariant
                    i <= entries@.len(),
                    spec_obj_entries(*sub) == entries@,
                    spec_members_ok(entries@.take(i as int)),
                    out@.map_values(|p: (i32, Member)| (p.0, p.1@)) == spec_members_of(
                        entries@.take(i as int),
                    ),
                decreases entries@.len() - i,
            {
                let pair = &entries[i];
                let ghost pre = entries@.take(i as int);
                proof {
                    assert(entries@.take(i as int + 1).drop_last() =~= pre);
                    assert(entries@.take(i as int + 1).last() == entries@[i as int]);
                }
                let k: i32 = match parse_key(pair.0.as_str()) {
                    Ok(n) => {
                        proof {
                            crate::numfmt::lemma_key_value_nonneg(pair.0@);
                        }
                        n as i32
                    },
                    Err(e) => {
                        proof {
                            lemma_members_ok_prefix(entries@, i as int + 1);
                        }
                        return Err(e);
                    },
                };
                let m = match Member::from_json(&pair.1) {
                    Ok(m) => m,
                    Err(e) => {
                        proof {
                            lemma_members_ok_prefix(entries@, i as int + 1);
                        }
                        return Err(e);
                    },
                };
                let ghost out_pre = out@;
                out.push((k, m));
                proof {
                    assert(out@.map_values(|p: (i32, Member)| (p.0, p.1@)) =~= out_pre.map_values(
                        |p: (i32, Member)| (p.0, p.1@),
                    ).push((k, m@)));
                }
                i = i + 1;
            }
            proof {
                assert(entries@.take(entries@.len() as int) =~= entries@);
            }
            Ok(out)
        },
        _ => Err(crate::json::absent_field_error("members")),
    }
}

/// The typed response for the faction category.
pub struct Response {
    response: ApiResponse,
}

impl View for Response {
    type V = JsonValue;

    closed spec fn view(&self) -> JsonValue {
        self.response@
    }
}

impl ApiCategoryResponse for Response {
    type Selection = Selection;

    open spec fn spec_wraps(&self, doc: JsonValue) -> bool {
        self@ == doc
    }

    fn from_response(response: ApiResponse) -> (r: Self) {
        Response { response }
    }
}

impl Response {
    /// Typed decode of the basic selection's fields; they sit at the top
    /// level of the document, so this decodes the whole payload.
    pub fn basic(&self) -> (r: Result<Basic, Error>)
        ensures
            (match spec_decode::<Basic>(self@) {
                Some(m) => r matches Ok(d) && d@ == m,
                None => r matches Err(Error::Deserialize { .. }),
            }),
    {
        self.response.decode::<Basic>()
    }
}

} // verus!
