use akt_registry::db::actor::ConnectionType;
use akt_registry::db::models::{
    jsonb_frame, Action, LogEntry, NewToken, NewUser, PayloadWrapper, Token, JSONB_VERSION,
    UNREADABLE_HEADER,
};

fn pair(key: &str, value: &str) -> (String, String) {
    (key.to_string(), value.to_string())
}

#[test]
fn an_empty_payload_has_no_key() {
    let payload = PayloadWrapper::new();
    assert_eq!(payload.len(), 0);
    assert!(payload.get("a").is_none());
    assert!(payload.pairs().is_empty());
}

#[test]
fn insert_puts_and_replaces() {
    let mut payload = PayloadWrapper::new();
    payload.insert("a".to_string(), "1".to_string());
    payload.insert("b".to_string(), "2".to_string());
    assert_eq!(payload.len(), 2);
    assert_eq!(payload.get("a").unwrap(), "1");
    assert_eq!(payload.get("b").unwrap(), "2");
    assert!(payload.get("c").is_none());

    payload.insert("a".to_string(), "3".to_string());
    assert_eq!(payload.len(), 2);
    assert_eq!(payload.get("a").unwrap(), "3");
    assert_eq!(payload.get("b").unwrap(), "2");
}

#[test]
fn keys_are_told_apart_by_case() {
    let mut payload = PayloadWrapper::new();
    payload.insert("Host".to_string(), "a".to_string());
    payload.insert("host".to_string(), "b".to_string());
    assert_eq!(payload.len(), 2);
    assert_eq!(payload.get("Host").unwrap(), "a");
    assert_eq!(payload.get("host").unwrap(), "b");
}

#[test]
fn of_two_pairs_with_one_key_the_later_counts() {
    let payload =
        PayloadWrapper::from_pairs(&vec![pair("k", "first"), pair("x", "y"), pair("k", "last")]);
    assert_eq!(payload.len(), 2);
    assert_eq!(payload.get("k").unwrap(), "last");
    assert_eq!(payload.get("x").unwrap(), "y");
    assert_eq!(payload.pairs(), vec![pair("k", "last"), pair("x", "y")]);
}

#[test]
fn a_payload_comes_back_as_it_went_in() {
    let pairs = vec![pair("user-agent", "curl/8.0"), pair("accept", "*/*"), pair("", "")];
    let payload = PayloadWrapper::from_pairs(&pairs);
    assert_eq!(payload.pairs(), pairs);
    let copy = payload.clone();
    assert_eq!(copy.pairs(), pairs);
}

#[test]
fn an_unreadable_header_is_recorded_as_such() {
    let headers = vec![
        ("host".to_string(), Some("example.org".to_string())),
        ("x-raw".to_string(), None),
    ];
    let payload = PayloadWrapper::from_headers(&headers);
    assert_eq!(payload.len(), 2);
    assert_eq!(payload.get("host").unwrap(), "example.org");
    assert_eq!(payload.get("x-raw").unwrap(), "the header value has not visible ASCII chars");
    assert_eq!(UNREADABLE_HEADER, "the header value has not visible ASCII chars");
}

#[test]
fn of_two_headers_with_one_name_the_later_counts() {
    let headers = vec![
        ("accept".to_string(), Some("a".to_string())),
        ("accept".to_string(), None),
        ("accept".to_string(), Some("c".to_string())),
    ];
    let payload = PayloadWrapper::from_headers(&headers);
    assert_eq!(payload.len(), 1);
    assert_eq!(payload.get("accept").unwrap(), "c");
}

#[test]
fn a_payload_is_stored_as_the_version_byte_and_its_json() {
    let payload = PayloadWrapper::from_pairs(&vec![pair("b", "2"), pair("a", "1")]);
    let bytes = payload.to_jsonb().unwrap();
    assert_eq!(bytes, b"\x01{\"a\":\"1\",\"b\":\"2\"}".to_vec());

    let bytes = PayloadWrapper::new().to_jsonb().unwrap();
    assert_eq!(bytes, b"\x01{}".to_vec());
}

#[test]
fn the_json_of_a_payload_keeps_every_string_as_a_string() {
    let pairs = vec![pair("n", "42"), pair("t", "true"), pair("q", "say \"hi\"\n"), pair("é", "ü")];
    let payload = PayloadWrapper::from_pairs(&pairs);
    let bytes = payload.to_jsonb().unwrap();
    assert_eq!(bytes[0], 1);
    let read: serde_json::Value = serde_json::from_slice(&bytes[1..]).unwrap();
    let members = read.as_object().unwrap();
    assert_eq!(members.len(), 4);
    for (key, value) in pairs {
        assert_eq!(members.get(&key).unwrap().as_str().unwrap(), value);
    }
}

#[test]
fn the_frame_is_the_version_byte_before_the_text() {
    assert_eq!(JSONB_VERSION, 1);
    assert_eq!(jsonb_frame(vec![]), vec![1]);
    assert_eq!(jsonb_frame(vec![123, 125]), vec![1, 123, 125]);
}

#[test]
fn a_token_runs_from_its_issue_for_its_lifetime() {
    let token = Token::issue("t".to_string(), 1_000, 500).unwrap();
    assert_eq!(token.token, "t");
    assert_eq!(token.created_at, 1_000);
    assert_eq!(token.expired_at, 1_500);
    let token = Token::issue("t".to_string(), -10, 1).unwrap();
    assert_eq!(token.created_at, -10);
    assert_eq!(token.expired_at, -9);
    let token = Token::issue("t".to_string(), i64::MAX - 1, 1).unwrap();
    assert_eq!(token.expired_at, i64::MAX);
}

#[test]
fn no_token_without_a_positive_lifetime_or_beyond_the_last_time() {
    assert!(Token::issue("t".to_string(), 1_000, 0).is_none());
    assert!(Token::issue("t".to_string(), 1_000, -1).is_none());
    assert!(Token::issue("t".to_string(), i64::MAX, 1).is_none());
    assert!(Token::issue("t".to_string(), 1, i64::MAX).is_none());
}

#[test]
fn a_token_is_good_until_its_end_and_not_at_it() {
    let token = Token { token: "t".to_string(), created_at: 10, expired_at: 20 };
    assert!(token.is_valid_at(19));
    assert!(!token.is_valid_at(20));
    assert!(!token.is_valid_at(21));
    assert!(token.is_valid_at(i64::MIN));
    assert_eq!(token.row(), NewToken { token: "t" });
    let copy = token.clone();
    assert_eq!(copy.token, "t");
    assert_eq!(copy.created_at, 10);
    assert_eq!(copy.expired_at, 20);
}

#[test]
fn a_log_entry_is_stored_with_the_text_of_its_action() {
    let entry = LogEntry {
        token: "t".to_string(),
        action: Action::Named("open".to_string()),
        payload: PayloadWrapper::from_pairs(&vec![pair("a", "1")]),
    };
    let row = entry.row();
    assert_eq!(row.token, "t");
    assert_eq!(row.action, "open");
    assert_eq!(row.payload.pairs(), vec![pair("a", "1")]);

    assert_eq!(Action::CreateNewToken.as_str(), "create_new_token");
    assert_eq!(Action::Named("create_new_token".to_string()).as_str(), "create_new_token");
}

#[test]
fn a_new_user_is_its_four_fields() {
    let user = NewUser { terms_signed: false, not_resident: true, address: "0xA", amount: 5 };
    assert_eq!(
        user,
        NewUser { terms_signed: false, not_resident: true, address: "0xA", amount: 5 }
    );
    assert_ne!(
        user,
        NewUser { terms_signed: false, not_resident: true, address: "0xa", amount: 5 }
    );
}

#[test]
fn each_kind_of_connection_has_its_variable() {
    assert_eq!(ConnectionType::Read.variable(), "DB_READ_URL");
    assert_eq!(ConnectionType::Write.variable(), "DB_WRITE_URL");
}
