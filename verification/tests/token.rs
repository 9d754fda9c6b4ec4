use akt_registry::token::{
    create_token, current_timestamp, new_secret, token_of, Claims, SECRET_LENGTH,
};

/// Reads the claims of a token back, and checks its signature on the way.
fn claims_of(token: &str, secret: &str) -> serde_json::Value {
    let mut validation = jsonwebtoken::Validation::new(jsonwebtoken::Algorithm::HS256);
    validation.required_spec_claims.clear();
    validation.validate_exp = false;
    let key = jsonwebtoken::DecodingKey::from_secret(secret.as_bytes());
    jsonwebtoken::decode::<serde_json::Value>(token, &key, &validation).unwrap().claims
}

#[test]
fn a_secret_is_twenty_digits_and_letters() {
    let secret = new_secret();
    assert_eq!(SECRET_LENGTH, 20);
    assert_eq!(secret.chars().count(), 20);
    assert!(secret.chars().all(|c| c.is_ascii_alphanumeric()));
}

#[test]
fn two_secrets_differ() {
    assert_ne!(new_secret(), new_secret());
}

#[test]
fn the_clock_stands_after_the_epoch() {
    let first = current_timestamp().unwrap();
    let second = current_timestamp().unwrap();
    // 2020-01-01 in nanoseconds since the epoch
    assert!(first > 1_577_836_800_000_000_000);
    assert!(second >= first);
}

#[test]
fn a_token_states_its_claims_under_the_secret() {
    let claims = Claims { timestamp: 1_234_567_890_123_456_789, uid: "some-uid".to_string() };
    let token = token_of(&claims, "secret").unwrap();
    assert_eq!(token.split('.').count(), 3);
    assert_ne!(token, "secret");
    assert_ne!(token, "some-uid");

    let read = claims_of(&token, "secret");
    assert_eq!(read.as_object().unwrap().len(), 2);
    assert_eq!(read.get("timestamp").unwrap().as_u64().unwrap(), 1_234_567_890_123_456_789);
    assert_eq!(read.get("uid").unwrap().as_str().unwrap(), "some-uid");
}

#[test]
fn a_token_is_the_same_for_the_same_claims_and_secret() {
    let claims = Claims { timestamp: 1, uid: "u".to_string() };
    let token = token_of(&claims, "s").unwrap();
    assert_eq!(
        token,
        "eyJ0eXAiOiJKV1QiLCJhbGciOiJIUzI1NiJ9.eyJ0aW1lc3RhbXAiOjEsInVpZCI6InUifQ.".to_string()
            + token.rsplit('.').next().unwrap()
    );
    assert_eq!(token_of(&claims, "s").unwrap(), token);
    assert_ne!(token_of(&claims, "t").unwrap(), token);
    let other = Claims { timestamp: 2, uid: "u".to_string() };
    assert_ne!(token_of(&other, "s").unwrap(), token);
}

#[test]
fn no_token_for_a_time_beyond_sixty_four_bits() {
    let claims = Claims { timestamp: u64::MAX as u128, uid: "u".to_string() };
    assert!(token_of(&claims, "s").is_some());
    let claims = Claims { timestamp: u64::MAX as u128 + 1, uid: "u".to_string() };
    assert!(token_of(&claims, "s").is_none());
}

#[test]
fn two_tokens_in_a_row_differ() {
    let secret = new_secret();
    let first = create_token(&secret).unwrap();
    let second = create_token(&secret).unwrap();
    assert_ne!(first, second);
}

#[test]
fn a_new_token_states_the_time_and_a_random_uuid() {
    let secret = new_secret();
    let before = current_timestamp().unwrap();
    let token = create_token(&secret).unwrap();
    let after = current_timestamp().unwrap();

    let read = claims_of(&token, &secret);
    let timestamp = read.get("timestamp").unwrap().as_u64().unwrap() as u128;
    assert!(before <= timestamp && timestamp <= after);

    let uid = read.get("uid").unwrap().as_str().unwrap();
    let chars: Vec<char> = uid.chars().collect();
    assert_eq!(chars.len(), 36);
    for (i, c) in chars.iter().enumerate() {
        if i == 8 || i == 13 || i == 18 || i == 23 {
            assert_eq!(*c, '-');
        } else {
            assert!(c.is_ascii_digit() || ('a'..='f').contains(c));
        }
    }
    assert_eq!(chars[14], '4');
    assert!(['8', '9', 'a', 'b'].contains(&chars[19]));
}
