use torn_api::json::JsonValue;
use torn_api::user;
use torn_api::{ApiResponse, Error};

fn text(s: &str) -> JsonValue {
    JsonValue::Text(s.to_string())
}

fn obj(entries: Vec<(&str, JsonValue)>) -> JsonValue {
    JsonValue::Obj(entries.into_iter().map(|(k, v)| (k.to_string(), v)).collect())
}

fn user_doc() -> JsonValue {
    obj(vec![
        ("level", JsonValue::Int(82)),
        ("gender", text("Male")),
        ("player_id", JsonValue::Int(2111649)),
        ("name", text("Mara")),
    ])
}

fn status_entries() -> Vec<(&'static str, JsonValue)> {
    vec![
        ("description", text("Okay")),
        ("state", text("Okay")),
        ("color", text("green")),
        ("until", JsonValue::Int(0)),
    ]
}

#[test]
fn error_envelope_yields_api_error() {
    let doc = obj(vec![
        (
            "error",
            obj(vec![("code", JsonValue::Int(2)), ("error", text("incorrect key"))]),
        ),
        ("level", JsonValue::Int(5)),
    ]);
    match ApiResponse::from_value(doc) {
        Err(Error::Api { code, reason }) => {
            assert_eq!(code, 2);
            assert_eq!(reason, "incorrect key");
        }
        _ => panic!("expected an api error"),
    }
}

#[test]
fn malformed_error_payload_is_decode_error() {
    let doc = obj(vec![("error", obj(vec![("code", text("two"))]))]);
    assert!(matches!(
        ApiResponse::from_value(doc),
        Err(Error::Deserialize { .. })
    ));
}

#[test]
fn error_code_out_of_range_is_decode_error() {
    let doc = obj(vec![(
        "error",
        obj(vec![("code", JsonValue::Int(300)), ("error", text("weird"))]),
    )]);
    assert!(matches!(
        ApiResponse::from_value(doc),
        Err(Error::Deserialize { .. })
    ));
}

#[test]
fn success_envelope_decodes_twice_equal() {
    let env = ApiResponse::from_value(user_doc()).unwrap();
    let a: user::Basic = env.decode().unwrap();
    let b: user::Basic = env.decode().unwrap();
    assert_eq!(a, b);
    assert_eq!(a.player_id, 2111649);
    assert_eq!(a.name, "Mara");
    assert_eq!(a.level, 82);
    assert_eq!(a.gender, "Male");
}

#[test]
fn decode_field_matches_whole_decode() {
    let doc = obj(vec![("status", obj(status_entries()))]);
    let env = ApiResponse::from_value(doc).unwrap();
    let via_field: user::Status = env.decode_field("status").unwrap();

    let sub_env = ApiResponse::from_value(obj(status_entries())).unwrap();
    let via_whole: user::Status = sub_env.decode().unwrap();

    assert_eq!(via_field, via_whole);
    assert_eq!(via_field.color, "green");
    assert_eq!(via_field.until, 0);
}

#[test]
fn decode_field_absent_is_missing_field_error() {
    let env = ApiResponse::from_value(obj(vec![("level", JsonValue::Int(1))])).unwrap();
    match env.decode_field::<user::Status>("status") {
        Err(Error::Deserialize { message }) => {
            assert_eq!(message, "missing field `status`");
        }
        _ => panic!("expected a decode error"),
    }
}

#[test]
fn decode_wrong_shape_is_decode_error() {
    let env = ApiResponse::from_value(obj(vec![("level", text("eighty"))])).unwrap();
    assert!(matches!(
        env.decode::<user::Basic>(),
        Err(Error::Deserialize { .. })
    ));
}
