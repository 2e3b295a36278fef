use gorse_rs::error::ClientError;
use gorse_rs::model::{Item, User};
use gorse_rs::query::{CursorQuery, OffsetQuery, UserIdQuery, WriteBackQuery};
use gorse_rs::request::{append_query, interpret_response, ClientConfig, Method, Request};

const ENTRY_POINT: &str = "http://127.0.0.1:8088/";
const API_KEY: &str = "zhenghaoz";

fn config() -> ClientConfig {
    ClientConfig::new(ENTRY_POINT, API_KEY)
}

fn assert_headers(r: &Request) {
    assert_eq!(
        r.headers,
        vec![
            ("X-API-Key".to_string(), API_KEY.to_string()),
            ("Content-Type".to_string(), "application/json".to_string()),
        ]
    );
}

#[test]
fn entry_point_gets_trailing_slash() {
    let c = ClientConfig::new("http://127.0.0.1:8088", API_KEY);
    assert_eq!(c.entry_point(), "http://127.0.0.1:8088/");
    let c = ClientConfig::new("http://127.0.0.1:8088/", API_KEY);
    assert_eq!(c.entry_point(), "http://127.0.0.1:8088/");
    let c = ClientConfig::new("", API_KEY);
    assert_eq!(c.entry_point(), "/");
    assert_eq!(c.api_key(), API_KEY);
}

#[test]
fn query_marker_only_with_a_query() {
    assert_eq!(append_query("u".to_string(), String::new()), "u");
    assert_eq!(append_query("u".to_string(), "n=1".to_string()), "u?n=1");
}

#[test]
fn user_requests() {
    let c = config();
    let r = c.insert_user("{}".to_string());
    assert_eq!(r.method, Method::Post);
    assert_eq!(r.url, "http://127.0.0.1:8088/api/user");
    assert_eq!(r.body, Some("{}".to_string()));
    assert_headers(&r);
    let r = c.get_user("2000");
    assert_eq!(r.method, Method::Get);
    assert_eq!(r.url, "http://127.0.0.1:8088/api/user/2000");
    assert_eq!(r.body, None);
    assert_headers(&r);
    let r = c.delete_user("2000");
    assert_eq!(r.method, Method::Delete);
    assert_eq!(r.url, "http://127.0.0.1:8088/api/user/2000");
    assert_eq!(r.body, None);
    let user = User::new("1", vec!["a", "b", "c"]);
    let r = c.update_user(&user, "[]".to_string());
    assert_eq!(r.method, Method::Patch);
    assert_eq!(r.url, "http://127.0.0.1:8088/api/user/1");
    assert_eq!(r.body, Some("[]".to_string()));
    let r = c.list_users(&CursorQuery::new());
    assert_eq!(r.url, "http://127.0.0.1:8088/api/users");
    let r = c.list_users(&CursorQuery::new().number(5).cursor("x y"));
    assert_eq!(r.url, "http://127.0.0.1:8088/api/users?n=5&cursor=x+y");
    let r = c.insert_users("[]".to_string());
    assert_eq!(r.method, Method::Post);
    assert_eq!(r.url, "http://127.0.0.1:8088/api/users");
}

#[test]
fn item_requests() {
    let c = config();
    assert_eq!(c.insert_item("{}".to_string()).url, "http://127.0.0.1:8088/api/item");
    assert_eq!(c.get_item("1").url, "http://127.0.0.1:8088/api/item/1");
    assert_eq!(c.delete_item("1").method, Method::Delete);
    let item = Item::new("100", vec!["a"], vec!["d", "e"], "2022-11-20T13:55:27Z");
    let r = c.update_item(&item, "{}".to_string());
    assert_eq!(r.method, Method::Patch);
    assert_eq!(r.url, "http://127.0.0.1:8088/api/item/100");
    let r = c.add_item_to_category("1", "test");
    assert_eq!(r.method, Method::Put);
    assert_eq!(r.url, "http://127.0.0.1:8088/api/item/1/category/test");
    assert_eq!(r.body, None);
    let r = c.delete_item_to_category("1", "test");
    assert_eq!(r.method, Method::Delete);
    assert_eq!(r.url, "http://127.0.0.1:8088/api/item/1/category/test");
    assert_eq!(c.list_items(&CursorQuery::new()).url, "http://127.0.0.1:8088/api/items");
    assert_eq!(c.insert_items("[]".to_string()).url, "http://127.0.0.1:8088/api/items");
}

#[test]
fn feedback_requests() {
    let c = config();
    let r = c.insert_feedback("[]".to_string());
    assert_eq!(r.method, Method::Post);
    assert_eq!(r.url, "http://127.0.0.1:8088/api/feedback");
    let r = c.overwrite_feedback("[]".to_string());
    assert_eq!(r.method, Method::Put);
    assert_eq!(r.url, "http://127.0.0.1:8088/api/feedback");
    assert_eq!(c.list_feedback(&CursorQuery::new()).url, "http://127.0.0.1:8088/api/feedback");
    assert_eq!(
        c.list_feedback_by_type("read", &CursorQuery::new().number(2)).url,
        "http://127.0.0.1:8088/api/feedback/read?n=2"
    );
    let r = c.get_feedback("star", "10", "3");
    assert_eq!(r.method, Method::Get);
    assert_eq!(r.url, "http://127.0.0.1:8088/api/feedback/star/10/3");
    let r = c.delete_feedback("star", "10", "3");
    assert_eq!(r.method, Method::Delete);
    assert_eq!(r.url, "http://127.0.0.1:8088/api/feedback/star/10/3");
    let r = c.list_feedback_from_user_by_item("10", "5");
    assert_eq!(r.method, Method::Get);
    assert_eq!(r.url, "http://127.0.0.1:8088/api/feedback/10/5");
    let r = c.delete_feedback_from_user_by_item("10", "5");
    assert_eq!(r.method, Method::Delete);
    assert_eq!(r.url, "http://127.0.0.1:8088/api/feedback/10/5");
    assert_eq!(c.list_feedback_by_item("3").url, "http://127.0.0.1:8088/api/item/3/feedback");
    assert_eq!(
        c.list_feedback_by_item_and_type("3", "read").url,
        "http://127.0.0.1:8088/api/item/3/feedback/read"
    );
    assert_eq!(c.list_feedback_from_user("10").url, "http://127.0.0.1:8088/api/user/10/feedback");
    assert_eq!(
        c.list_feedback_from_user_by_type("2000", "watch").url,
        "http://127.0.0.1:8088/api/user/2000/feedback/watch"
    );
}

#[test]
fn ranking_requests() {
    let c = config();
    assert_eq!(
        c.get_item_neighbors("10", &OffsetQuery::new()).url,
        "http://127.0.0.1:8088/api/item/10/neighbors"
    );
    assert_eq!(
        c.get_item_neighbors_by_category("10", "test", &OffsetQuery::new().offset(1)).url,
        "http://127.0.0.1:8088/api/item/10/neighbors/test?offset=1"
    );
    assert_eq!(
        c.get_user_neighbors("10", &OffsetQuery::new()).url,
        "http://127.0.0.1:8088/api/user/10/neighbors"
    );
    assert_eq!(c.get_latest(&UserIdQuery::new()).url, "http://127.0.0.1:8088/api/latest");
    assert_eq!(
        c.get_latest_by_category("test", &UserIdQuery::new().user_id("10")).url,
        "http://127.0.0.1:8088/api/latest/test?user-id=10"
    );
    assert_eq!(c.get_popular(&UserIdQuery::new()).url, "http://127.0.0.1:8088/api/popular");
    assert_eq!(
        c.get_popular_by_category("test", &UserIdQuery::new()).url,
        "http://127.0.0.1:8088/api/popular/test"
    );
    let r = c.get_recommend("3000", &WriteBackQuery::new().number(3));
    assert_eq!(r.method, Method::Get);
    assert_eq!(r.url, "http://127.0.0.1:8088/api/recommend/3000?n=3");
    assert_eq!(r.body, None);
    assert_headers(&r);
}

#[test]
fn health_requests() {
    let c = config();
    let r = c.is_live();
    assert_eq!(r.method, Method::Get);
    assert_eq!(r.url, "http://127.0.0.1:8088/api/health/live");
    assert_eq!(c.is_ready().url, "http://127.0.0.1:8088/api/health/ready");
}

#[test]
fn empty_identifier_is_sent_as_is() {
    assert_eq!(config().get_user("").url, "http://127.0.0.1:8088/api/user/");
}

#[test]
fn success_hands_body_on_unchanged() {
    let body = r#"[{"Id":"30","Score":3},{"Id":"20","Score":2},{"Id":"10","Score":1}]"#;
    match interpret_response(200, body.to_string()) {
        Ok(b) => assert_eq!(b, body),
        Err(e) => panic!("unexpected error {:?}", e),
    }
}

#[test]
fn not_found_is_an_api_failure() {
    match interpret_response(404, "item not found".to_string()) {
        Err(ClientError::Api { status_code, message }) => {
            assert_eq!(status_code, 404);
            assert_eq!(message, "item not found");
        }
        other => panic!("expected an API failure, got {:?}", other),
    }
}

#[test]
fn every_other_status_is_an_api_failure() {
    for status in [201u16, 204, 301, 400, 401, 500, 503] {
        let r = interpret_response(status, " raw body \n".to_string());
        match r {
            Err(e) => {
                assert_eq!(e.status_code(), Some(status));
                match e {
                    ClientError::Api { message, .. } => assert_eq!(message, " raw body \n"),
                    other => panic!("expected an API failure, got {:?}", other),
                }
            }
            Ok(_) => panic!("status {} is no success", status),
        }
    }
}

#[test]
fn decode_failure_is_its_own_kind() {
    let e = serde_json::from_str::<i32>("not json").unwrap_err();
    let e = ClientError::from(e);
    assert!(matches!(e, ClientError::Decode(_)));
    assert_eq!(e.status_code(), None);
}
