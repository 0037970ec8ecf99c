//! The user category: its selections and the typed fields of its basic
//! payload, which sit flattened at the top level of the response document.

use vstd::prelude::*;

verus! {

use crate::{ApiCategoryResponse, ApiResponse, ApiSelection, Error};
use crate::json::{
    FromJson, JsonValue, get_int, get_text, spec_decode, spec_int, spec_int_ok, spec_text,
    spec_text_ok,
};

/// The selections a user request may ask for.
#[derive(Debug, Clone, Copy)]
pub enum Selection {
    Basic,
}

impl ApiSelection for Selection {
    open spec fn spec_token(&self) -> Seq<char> {
        "basic"@
    }

    open spec fn spec_category() -> Seq<char> {
        "user"@
    }

    fn raw_value(&self) -> (r: &'static str) {
        "basic"
    }

    fn category() -> (r: &'static str) {
        "user"
    }
}

/// A user's status block.
#[derive(Debug, Clone, PartialEq)]
pub struct Status {
    pub description: String,
    pub state: String,
    pub color: String,
    pub until: i64,
}

/// The mathematical value of a `Status`.
pub struct StatusView {
    pub description: Seq<char>,
    pub state: Seq<char>,
    pub color: Seq<char>,
    pub until: i64,
}

impl View for Status {
    type V = StatusView;

    open spec fn view(&self) -> StatusView {
        StatusView {
            description: self.description@,
            state: self.state@,
            color: self.color@,
            until: self.until,
        }
    }
}

impl FromJson for Status {
    open spec fn json_ok(v: JsonValue) -> bool {
        &&& spec_text_ok(v, "description"@)
        &&& spec_text_ok(v, "state"@)
        &&& spec_text_ok(v, "color"@)
        &&& spec_int_ok(v, "until"@)
    }

    open spec fn of_json(v: JsonValue) -> StatusView {
        StatusView {
            description: spec_text(v, "description"@),
            state: spec_text(v, "state"@),
            color: spec_text(v, "color"@),
            until: spec_int(v, "until"@),
        }
    }

    fn from_json(v: &JsonValue) -> (r: Result<Status, Error>) {
        let description = match get_text(v, "description") {
            Ok(s) => s,
            Err(e) => return Err(e),
        };
        let state = match get_text(v, "state") {
            Ok(s) => s,
            Err(e) => return Err(e),
        };
        let color = match get_text(v, "color") {
            Ok(s) => s,
            Err(e) => return Err(e),
        };
        let until = match get_int(v, "until") {
            Ok(n) => n,
            Err(e) => return Err(e),
        };
        Ok(Status { description, state, color, until })
    }
}

/// When a user last acted.
#[derive(Debug, Clone, PartialEq)]
pub struct LastAction {
    pub status: String,
    pub timestamp: i64,
    pub relative: String,
}

/// The mathematical value of a `LastAction`.
pub struct LastActionView {
    pub status: Seq<char>,
    pub timestamp: i64,
    pub relative: Seq<char>,
}

impl View for LastAction {
    type V = LastActionView;

    open spec fn view(&self) -> LastActionView {
        LastActionView {
            status: self.status@,
            timestamp: self.timestamp,
            relative: self.relative@,
        }
    }
}

impl FromJson for LastAction {
    open spec fn json_ok(v: JsonValue) -> bool {
        &&& spec_text_ok(v, "status"@)
        &&& spec_int_ok(v, "timestamp"@)
        &&& spec_text_ok(v, "relative"@)
    }

    open spec fn of_json(v: JsonValue) -> LastActionView {
        LastActionView {
            status: spec_text(v, "status"@),
            timestamp: spec_int(v, "timestamp"@),
            relative: spec_text(v, "relative"@),
        }
    }

    fn from_json(v: &JsonValue) -> (r: Result<LastAction, Error>) {
        let status = match get_text(v, "status") {
            Ok(s) => s,
            Err(e) => return Err(e),
        };
        let timestamp = match get_int(v, "timestamp") {
            Ok(n) => n,
            Err(e) => return Err(e),
        };
        let relative = match get_text(v, "relative") {
            Ok(s) => s,
            Err(e) => return Err(e),
        };
        Ok(LastAction { status, timestamp, relative })
    }
}

/// The fields the basic user selection carries.
#[derive(Debug, Clone, PartialEq)]
pub struct Basic {
    pub player_id: i32,
    pub name: String,
    pub level: i16,
    pub gender: String,
}

/// The mathematical value of a user `Basic`.
pub struct BasicView {
    pub player_id: i32,
    pub name: Seq<char>,
    pub level: i16,
    pub gender: Seq<char>,
}

impl View for Basic {
    type V = BasicView;

    open spec fn view(&self) -> BasicView {
        BasicView {
            player_id: self.player_id,
            name: self.name@,
            level: self.level,
            gender: self.gender@,
        }
    }
}

impl FromJson for Basic {
    open spec fn json_ok(v: JsonValue) -> bool {
        &&& spec_int_ok(v, "player_id"@)
        &&& i32::MIN <= spec_int(v, "player_id"@) <= i32::MAX
        &&& spec_text_ok(v, "name"@)
        &&& spec_int_ok(v, "level"@)
        &&& i16::MIN <= spec_int(v, "level"@) <= i16::MAX
        &&& spec_text_ok(v, "gender"@)
    }

    open spec fn of_json(v: JsonValue) -> BasicView {
        BasicView {
            player_id: spec_int(v, "player_id"@) as i32,
            name: spec_text(v, "name"@),
            level: spec_int(v, "level"@) as i16,
            gender: spec_text(v, "gender"@),
        }
    }

    fn from_json(v: &JsonValue) -> (r: Result<Basic, Error>) {
        let player_id = match crate::json::get_int_range(v, "player_id", i32::MIN as i64, i32::MAX as i64) {
            Ok(n) => n as i32,
            Err(e) => return Err(e),
        };
        let name = match get_text(v, "name") {
            Ok(s) => s,
            Err(e) => return Err(e),
        };
        let level = match crate::json::get_int_range(v, "level", i16::MIN as i64, i16::MAX as i64) {
            Ok(n) => n as i16,
            Err(e) => return Err(e),
        };
        let gender = match get_text(v, "gender") {
            Ok(s) => s,
            Err(e) => return Err(e),
        };
        Ok(Basic { player_id, name, level, gender })
    }
}

/// The typed response for the user category.
pub struct Response {
    response: ApiResponse,
}

impl View for Response {
    type V = JsonValue;

    closed spec fn view(&self) -> JsonValue {
        self.response@
    }
}

impl ApiCategoryResponse for Response {
    type Selection = Selection;

    open spec fn spec_wraps(&self, doc: JsonValue) -> bool {
        self@ == doc
    }

    fn from_response(response: ApiResponse) -> (r: Self) {
        Response { response }
    }
}

impl Response {
    /// Typed decode of the basic selection's fields; they sit at the top
    /// level of the document, so this decodes the whole payload.
    pub fn basic(&self) -> (r: Result<Basic, Error>)
        ensures
            (match spec_decode::<Basic>(self@) {
                Some(m) => r matches Ok(d) && d@ == m,
                None => r matches Err(Error::Deserialize { .. }),
            }),
    {
        self.response.decode::<Basic>()
    }
}

} // verus!
