use steamr::client::{classify_response, HttpOutcome, QueryValue, SteamClient};
use steamr::errors::{RequestFailure, SteamError};
use steamr::friends::{friends_from_response, SteamRelationship, ENDPOINT_GET_FRIENDLIST};
use steamr::games::library::library_from_response;
use steamr::games::news::{game_news_from_response, ENDPOINT_GAME_NEWS};
use steamr::games::stats::player_stats_from_response;
use steamr::json::{Json, JsonNumber};

fn ok(body: &str) -> HttpOutcome {
    HttpOutcome::Received { status: 200, body: body.to_string() }
}

#[test]
fn client_from_keeps_key() {
    let c = SteamClient::from("abc".to_string());
    assert_eq!(c.api_key(), "abc");
    assert!(!c.is_anonymous());
    assert!(SteamClient::new().is_anonymous());
    assert_eq!(SteamClient::default().api_key(), "");
}

#[test]
fn friends_request_has_key_and_params() {
    let c = SteamClient::from("k1".to_string());
    let r = c.friends_request("765");
    assert_eq!(r.endpoint, ENDPOINT_GET_FRIENDLIST);
    assert_eq!(
        r.query,
        vec![
            ("key".to_string(), QueryValue::Text("k1".to_string())),
            ("steamid".to_string(), QueryValue::Text("765".to_string())),
            ("relationship".to_string(), QueryValue::Text("friend".to_string())),
        ]
    );
}

#[test]
fn game_news_request_counts_are_numbers() {
    let c = SteamClient::new();
    let r = c.game_news_request("10", 5, 300);
    assert_eq!(r.endpoint, ENDPOINT_GAME_NEWS);
    assert_eq!(
        r.query,
        vec![
            ("key".to_string(), QueryValue::Text(String::new())),
            ("appid".to_string(), QueryValue::Text("10".to_string())),
            ("count".to_string(), QueryValue::Number(5)),
            ("maxlength".to_string(), QueryValue::Number(300)),
        ]
    );
}

#[test]
fn library_and_stats_requests() {
    let c = SteamClient::from("k".to_string());
    let r = c.library_request("42");
    assert_eq!(r.query.len(), 4);
    assert_eq!(r.query[2], ("include_appInfo".to_string(), QueryValue::Text("true".to_string())));
    assert_eq!(
        r.query[3],
        ("include_played_free_games".to_string(), QueryValue::Text("true".to_string()))
    );
    let s = c.player_stats_request("42", "1086940");
    assert_eq!(
        s.query,
        vec![
            ("key".to_string(), QueryValue::Text("k".to_string())),
            ("steamid".to_string(), QueryValue::Text("42".to_string())),
            ("appid".to_string(), QueryValue::Text("1086940".to_string())),
        ]
    );
}

#[test]
fn classify_parses_a_200_body() {
    let r = classify_response(&ok(r#"{"a": [1, -2, 1.5, "x", null, true]}"#));
    let expected = Json::Object(vec![(
        "a".to_string(),
        Json::Array(vec![
            Json::Number(JsonNumber::PosInt(1)),
            Json::Number(JsonNumber::NegInt(-2)),
            Json::Number(JsonNumber::Fractional),
            Json::Str("x".to_string()),
            Json::Null,
            Json::Bool(true),
        ]),
    )]);
    assert_eq!(r, Ok(expected));
}

#[test]
fn malformed_200_body_is_a_failed_request() {
    let r = classify_response(&ok("{not json"));
    assert_eq!(r, Err(SteamError::FailedRequest(RequestFailure::MalformedBody)));
}

#[test]
fn unauthorized_whatever_the_body() {
    for body in ["", "<html>401</html>", r#"{"friendslist": {"friends": []}}"#] {
        let o = HttpOutcome::Received { status: 401, body: body.to_string() };
        assert_eq!(friends_from_response(&o), Err(SteamError::Unauthorized));
        assert!(matches!(library_from_response(&o), Err(SteamError::Unauthorized)));
        assert!(matches!(game_news_from_response(&o), Err(SteamError::Unauthorized)));
        assert!(matches!(player_stats_from_response(&o), Err(SteamError::Unauthorized)));
    }
}

#[test]
fn private_profile_stats_is_unauthorized_not_a_parse_error() {
    let o = HttpOutcome::Received { status: 401, body: "<html>Unauthorized</html>".to_string() };
    assert!(matches!(player_stats_from_response(&o), Err(SteamError::Unauthorized)));
}

#[test]
fn other_status_is_a_failed_request() {
    for status in [500u16, 403, 404, 302, 0] {
        let o = HttpOutcome::Received { status, body: "{}".to_string() };
        assert_eq!(
            friends_from_response(&o),
            Err(SteamError::FailedRequest(RequestFailure::Status(status)))
        );
        assert!(matches!(
            library_from_response(&o),
            Err(SteamError::FailedRequest(RequestFailure::Status(s))) if s == status
        ));
    }
}

#[test]
fn transport_failure_is_a_failed_request() {
    let o = HttpOutcome::Unreachable("connection refused".to_string());
    assert_eq!(
        friends_from_response(&o),
        Err(SteamError::FailedRequest(RequestFailure::Transport("connection refused".to_string())))
    );
}

#[test]
fn friends_fields_map_one_to_one() {
    let body = r#"{"friendslist":{"friends":[
        {"steamid":"76561197960265731","relationship":"friend","friend_since":1325542011},
        {"steamid":"76561197960265740","relationship":"friend","friend_since":0}]}}"#;
    let friends = friends_from_response(&ok(body)).unwrap();
    assert_eq!(friends.len(), 2);
    assert_eq!(friends[0].steam_id, "76561197960265731");
    assert_eq!(friends[0].relationship, SteamRelationship::Friend);
    assert_eq!(friends[0].friend_since, 1325542011);
    assert_eq!(friends[1].steam_id, "76561197960265740");
    assert_eq!(friends[1].friend_since, 0);
}

#[test]
fn friends_absent_or_null_payload_is_empty() {
    assert_eq!(friends_from_response(&ok("{}")), Ok(vec![]));
    assert_eq!(friends_from_response(&ok(r#"{"friendslist": null}"#)), Ok(vec![]));
}

#[test]
fn friends_unknown_relationship_is_no_data() {
    let body = r#"{"friendslist":{"friends":[{"steamid":"1","relationship":"all","friend_since":3}]}}"#;
    assert_eq!(friends_from_response(&ok(body)), Err(SteamError::NoData));
}

#[test]
fn document_that_is_no_object_is_no_data() {
    assert_eq!(friends_from_response(&ok("[1, 2]")), Err(SteamError::NoData));
    assert!(matches!(library_from_response(&ok("3")), Err(SteamError::NoData)));
}
