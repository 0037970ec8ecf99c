use std::cell::RefCell;

use torn_api::json::JsonValue;
use torn_api::{faction, user};
use torn_api::{ApiClient, Error, TornApi};

fn text(s: &str) -> JsonValue {
    JsonValue::Text(s.to_string())
}

fn obj(entries: Vec<(&str, JsonValue)>) -> JsonValue {
    JsonValue::Obj(entries.into_iter().map(|(k, v)| (k.to_string(), v)).collect())
}

struct StubClient {
    answer: RefCell<Option<Result<JsonValue, Error>>>,
}

impl StubClient {
    fn answering(answer: Result<JsonValue, Error>) -> Self {
        StubClient {
            answer: RefCell::new(Some(answer)),
        }
    }
}

impl ApiClient for StubClient {
    fn request(&self, _url: String) -> Result<JsonValue, Error> {
        self.answer.borrow_mut().take().expect("one request per stub")
    }

    fn torn_api<'a>(&'a self, key: String) -> TornApi<'a, Self> {
        TornApi::from_client(self, key)
    }
}

fn status(state: &str) -> JsonValue {
    obj(vec![
        ("description", text("Okay")),
        ("state", text(state)),
        ("color", text("green")),
        ("until", JsonValue::Int(0)),
    ])
}

fn last_action(ts: i64) -> JsonValue {
    obj(vec![
        ("status", text("Offline")),
        ("timestamp", JsonValue::Int(ts)),
        ("relative", text("2 hours ago")),
    ])
}

fn member(name: &str, level: i64) -> JsonValue {
    obj(vec![
        ("name", text(name)),
        ("level", JsonValue::Int(level)),
        ("days_in_faction", JsonValue::Int(40)),
        ("position", text("Member")),
        ("status", status("Okay")),
        ("last_action", last_action(1651234567)),
    ])
}

#[test]
fn invalid_key_reports_api_error() {
    let client = StubClient::answering(Ok(obj(vec![(
        "error",
        obj(vec![("code", JsonValue::Int(2)), ("error", text("incorrect key"))]),
    )])));
    let outcome = client
        .torn_api("BADKEY".to_string())
        .user(None)
        .selections(&[user::Selection::Basic])
        .send();
    match outcome {
        Err(Error::Api { code, reason }) => {
            assert_eq!(code, 2);
            assert_eq!(reason, "incorrect key");
        }
        _ => panic!("expected an api error"),
    }
}

#[test]
fn valid_user_document_decodes_exactly() {
    let client = StubClient::answering(Ok(obj(vec![
        ("level", JsonValue::Int(82)),
        ("gender", text("Female")),
        ("player_id", JsonValue::Int(2111649)),
        ("name", text("Mara")),
    ])));
    let response = client
        .torn_api("KEY".to_string())
        .user(None)
        .selections(&[user::Selection::Basic])
        .send()
        .unwrap();
    let basic = response.basic().unwrap();
    assert_eq!(basic.player_id, 2111649);
    assert_eq!(basic.name, "Mara");
    assert_eq!(basic.level, 82);
    assert_eq!(basic.gender, "Female");
}

#[test]
fn transport_failure_is_propagated() {
    let client = StubClient::answering(Err(Error::Transport {
        message: "connection refused".to_string(),
    }));
    let outcome = client.torn_api("KEY".to_string()).user(None).send();
    match outcome {
        Err(Error::Transport { message }) => {
            assert_eq!(message, "connection refused");
        }
        _ => panic!("expected a transport error"),
    }
}

#[test]
fn faction_roster_decodes_in_document_order() {
    let client = StubClient::answering(Ok(obj(vec![
        ("ID", JsonValue::Int(901)),
        ("name", text("The Planners")),
        ("leader", JsonValue::Int(12)),
        ("respect", JsonValue::Int(5000)),
        ("age", JsonValue::Int(120)),
        ("capacity", JsonValue::Int(50)),
        ("best_chain", JsonValue::Int(250)),
        (
            "members",
            obj(vec![("12", member("Ann", 30)), ("7", member("Bo", 9))]),
        ),
    ])));
    let response = client
        .torn_api("KEY".to_string())
        .faction(None)
        .selections(&[faction::Selection::Basic])
        .send()
        .unwrap();
    let basic = response.basic().unwrap();
    assert_eq!(basic.id, 901);
    assert_eq!(basic.name, "The Planners");
    assert_eq!(basic.leader, 12);
    assert_eq!(basic.respect, 5000);
    assert_eq!(basic.age, 120);
    assert_eq!(basic.capacity, 50);
    assert_eq!(basic.best_chain, 250);
    assert_eq!(basic.members.len(), 2);
    assert_eq!(basic.members[0].0, 12);
    assert_eq!(basic.members[0].1.name, "Ann");
    assert_eq!(basic.members[0].1.level, 30);
    assert_eq!(basic.members[1].0, 7);
    assert_eq!(basic.members[1].1.name, "Bo");
    assert_eq!(basic.members[1].1.status.state, "Okay");
    assert_eq!(basic.members[1].1.last_action.timestamp, 1651234567);
}

fn faction_doc_with_member_key(key: &str) -> JsonValue {
    obj(vec![
        ("ID", JsonValue::Int(901)),
        ("name", text("The Planners")),
        ("leader", JsonValue::Int(12)),
        ("respect", JsonValue::Int(5000)),
        ("age", JsonValue::Int(120)),
        ("capacity", JsonValue::Int(50)),
        ("best_chain", JsonValue::Int(250)),
        ("members", obj(vec![(key, member("Bo", 9))])),
    ])
}

fn basic_for_member_key(key: &str) -> Result<torn_api::faction::Basic, Error> {
    let client = StubClient::answering(Ok(faction_doc_with_member_key(key)));
    let response = client
        .torn_api("KEY".to_string())
        .faction(None)
        .selections(&[faction::Selection::Basic])
        .send()
        .unwrap();
    response.basic()
}

#[test]
fn largest_member_key_decodes() {
    let basic = basic_for_member_key("2147483647").unwrap();
    assert_eq!(basic.members[0].0, 2147483647);
}

#[test]
fn member_key_above_range_is_decode_error() {
    assert!(matches!(
        basic_for_member_key("2147483648"),
        Err(Error::Deserialize { .. })
    ));
}

#[test]
fn non_canonical_member_key_is_decode_error() {
    let client = StubClient::answering(Ok(obj(vec![
        ("ID", JsonValue::Int(901)),
        ("name", text("The Planners")),
        ("leader", JsonValue::Int(12)),
        ("respect", JsonValue::Int(5000)),
        ("age", JsonValue::Int(120)),
        ("capacity", JsonValue::Int(50)),
        ("best_chain", JsonValue::Int(250)),
        ("members", obj(vec![("07", member("Bo", 9))])),
    ])));
    let response = client
        .torn_api("KEY".to_string())
        .faction(None)
        .selections(&[faction::Selection::Basic])
        .send()
        .unwrap();
    assert!(matches!(response.basic(), Err(Error::Deserialize { .. })));
}
