use torn_api::ApiSelection;
use torn_api::faction;
use torn_api::user;

#[test]
fn selection_raw_value() {
    assert_eq!(user::Selection::Basic.raw_value(), "basic");
}

#[test]
fn faction_selection_raw_value() {
    assert_eq!(faction::Selection::Basic.raw_value(), "basic");
}

#[test]
fn category_tokens() {
    assert_eq!(<user::Selection as ApiSelection>::category(), "user");
    assert_eq!(<faction::Selection as ApiSelection>::category(), "faction");
}
