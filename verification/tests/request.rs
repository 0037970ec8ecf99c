use torn_api::json::JsonValue;
use torn_api::{faction, user};
use torn_api::{ApiClient, Error, TornApi};

struct NoClient;

impl ApiClient for NoClient {
    fn request(&self, _url: String) -> Result<JsonValue, Error> {
        Err(Error::Transport {
            message: "no transport in this test".to_string(),
        })
    }

    fn torn_api<'a>(&'a self, key: String) -> TornApi<'a, Self> {
        TornApi::from_client(self, key)
    }
}

#[test]
fn empty_selections_and_absent_id_url() {
    let client = NoClient;
    let builder = client.torn_api("KEY".to_string()).user(None);
    assert_eq!(
        builder.build_url(),
        "https://api.torn.com/user/?selections=&key=KEY"
    );
}

#[test]
fn single_selection_url() {
    let client = NoClient;
    let builder = client
        .torn_api("KEY".to_string())
        .user(None)
        .selections(&[user::Selection::Basic]);
    assert_eq!(
        builder.build_url(),
        "https://api.torn.com/user/?selections=basic&key=KEY"
    );
}

#[test]
fn duplicate_selections_are_kept() {
    let client = NoClient;
    let builder = client
        .torn_api("KEY".to_string())
        .user(None)
        .selections(&[user::Selection::Basic])
        .selections(&[user::Selection::Basic]);
    assert_eq!(
        builder.build_url(),
        "https://api.torn.com/user/?selections=basic,basic&key=KEY"
    );
}

#[test]
fn full_url_with_id_range_and_comment() {
    let client = NoClient;
    let builder = client
        .torn_api("SECRET".to_string())
        .faction(Some(4711))
        .selections(&[faction::Selection::Basic])
        .from(1000000)
        .to(2000000)
        .comment("stats run".to_string());
    assert_eq!(
        builder.build_url(),
        "https://api.torn.com/faction/4711?selections=basic&key=SECRET&from=1000000&to=2000000&comment=stats run"
    );
}

#[test]
fn negative_range_bound_is_rendered_signed() {
    let client = NoClient;
    let builder = client.torn_api("K".to_string()).user(Some(1)).from(-5);
    assert_eq!(
        builder.build_url(),
        "https://api.torn.com/user/1?selections=&key=K&from=-5"
    );
}

#[test]
fn large_id_is_rendered_in_full() {
    let client = NoClient;
    let builder = client
        .torn_api("K".to_string())
        .user(Some(18446744073709551615));
    assert_eq!(
        builder.build_url(),
        "https://api.torn.com/user/18446744073709551615?selections=&key=K"
    );
}
