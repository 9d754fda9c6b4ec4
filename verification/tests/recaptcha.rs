use akt_registry::api::ApiError;
use akt_registry::recaptcha::Code::{
    BadRequest, InvalidResponse, InvalidSecret, MissingResponse, MissingSecret, Unknown,
};
use akt_registry::recaptcha::{url, Code, CodeSet, RecaptchaResponse, SITEVERIFY};

/// Reads an answer of the verification service from its JSON text.
fn decode(text: &str) -> Option<RecaptchaResponse> {
    let value: serde_json::Value = serde_json::from_str(text).ok()?;
    let success = value.get("success")?.as_bool()?;
    let words = match value.get("error-codes") {
        None => None,
        Some(list) if list.is_null() => None,
        Some(list) => {
            let mut words = Vec::new();
            for word in list.as_array()? {
                words.push(word.as_str()?.to_string());
            }
            Some(words)
        }
    };
    Some(RecaptchaResponse::from_wire(success, words))
}

#[test]
fn decoding_test() {
    let resp = decode(
        "{\n\t\t\t\"success\": true,\n\t\t\t\"error-codes\": [\"missing-input-secret\", \"foo\"]\n\t\t}",
    )
    .unwrap();

    assert!(resp.success);
    assert!(resp.error_codes.is_some());

    let errors = resp.error_codes.unwrap();
    assert!(errors.len() == 2);
    assert!(errors.contains(&MissingSecret));
    assert!(errors.contains(&Unknown("foo".to_string())));
}

#[test]
fn decoding_without_reasons() {
    let resp = decode("{\"success\": false}").unwrap();
    assert!(!resp.success);
    assert!(resp.error_codes.is_none());
    let resp = decode("{\"success\": false, \"error-codes\": null}").unwrap();
    assert!(resp.error_codes.is_none());
    let resp = decode("{\"success\": false, \"error-codes\": []}").unwrap();
    assert_eq!(resp.error_codes.unwrap().len(), 0);
}

#[test]
fn every_known_word_is_read() {
    assert_eq!(Code::parse("missing-input-secret".to_string()), MissingSecret);
    assert_eq!(Code::parse("invalid-input-secret".to_string()), InvalidSecret);
    assert_eq!(Code::parse("missing-input-response".to_string()), MissingResponse);
    assert_eq!(Code::parse("invalid-input-response".to_string()), InvalidResponse);
    assert_eq!(Code::parse("bad-request".to_string()), BadRequest);
}

#[test]
fn unknown_words_are_kept_whole() {
    assert_eq!(Code::parse("foo".to_string()), Unknown("foo".to_string()));
    assert_eq!(Code::parse("".to_string()), Unknown("".to_string()));
    assert_eq!(Code::parse("Bad-Request".to_string()), Unknown("Bad-Request".to_string()));
    assert_eq!(Code::parse("bad-request ".to_string()), Unknown("bad-request ".to_string()));
    assert_eq!(
        Code::parse("timeout-or-duplicate".to_string()).to_string(),
        "timeout-or-duplicate"
    );
}

#[test]
fn every_code_is_written_as_its_word() {
    assert_eq!(MissingSecret.to_string(), "missing-input-secret");
    assert_eq!(InvalidSecret.to_string(), "invalid-input-secret");
    assert_eq!(MissingResponse.to_string(), "missing-input-response");
    assert_eq!(InvalidResponse.to_string(), "invalid-input-response");
    assert_eq!(BadRequest.to_string(), "bad-request");
    assert_eq!(Unknown("what ever".to_string()).to_string(), "what ever");
    assert_eq!(BadRequest.as_str(), "bad-request");
}

#[test]
fn reading_a_word_and_writing_it_gives_the_word() {
    for word in ["missing-input-secret", "bad-request", "foo", "", "ünïcode", "a b"] {
        assert_eq!(Code::parse(word.to_string()).to_string(), word);
    }
}

#[test]
fn codes_are_equal_by_kind_and_word() {
    assert_eq!(Unknown("a".to_string()), Unknown("a".to_string()));
    assert_ne!(Unknown("a".to_string()), Unknown("b".to_string()));
    assert_ne!(Unknown("bad-request".to_string()), BadRequest);
    assert_ne!(MissingSecret, InvalidSecret);
    assert_eq!(Unknown("a".to_string()).clone(), Unknown("a".to_string()));
}

#[test]
fn a_set_holds_each_code_once_in_order_of_arrival() {
    let words = vec![
        "foo".to_string(),
        "bad-request".to_string(),
        "foo".to_string(),
        "bar".to_string(),
        "bad-request".to_string(),
    ];
    let set = CodeSet::from_words(&words);
    assert_eq!(set.len(), 3);
    assert_eq!(*set.get(0), Unknown("foo".to_string()));
    assert_eq!(*set.get(1), BadRequest);
    assert_eq!(*set.get(2), Unknown("bar".to_string()));
    assert!(set.contains(&BadRequest));
    assert!(!set.contains(&MissingSecret));
    assert!(!set.is_empty());
}

#[test]
fn insert_says_whether_the_code_was_new() {
    let mut set = CodeSet::new();
    assert!(set.is_empty());
    assert_eq!(set.len(), 0);
    assert!(set.insert(InvalidSecret));
    assert!(!set.insert(InvalidSecret));
    assert!(set.insert(Unknown("invalid-input-secret".to_string())));
    assert_eq!(set.len(), 2);
    assert!(set.contains(&InvalidSecret));
    assert!(set.contains(&Unknown("invalid-input-secret".to_string())));
    assert!(!set.contains(&Unknown("x".to_string())));
}

#[test]
fn an_accepted_response_goes_on_whatever_reasons_stand_beside() {
    let answer = RecaptchaResponse::from_wire(true, Some(vec!["foo".to_string()]));
    assert!(answer.verdict().is_ok());
    let answer = RecaptchaResponse::from_wire(true, None);
    assert!(answer.verdict().is_ok());
}

#[test]
fn a_refused_response_fails_with_the_reasons_of_the_service() {
    let answer = RecaptchaResponse::from_wire(
        false,
        Some(vec!["invalid-input-response".to_string(), "new-reason".to_string()]),
    );
    match answer.verdict() {
        Err(ApiError::RecaptchaErr(codes)) => {
            assert_eq!(codes.len(), 2);
            assert_eq!(*codes.get(0), InvalidResponse);
            assert_eq!(*codes.get(1), Unknown("new-reason".to_string()));
        }
        other => panic!("the verdict is {:?}", other),
    }
}

#[test]
fn a_refused_response_without_reasons_fails_with_none() {
    let answer = RecaptchaResponse::from_wire(false, None);
    match answer.verdict() {
        Err(ApiError::RecaptchaErr(codes)) => assert!(codes.is_empty()),
        other => panic!("the verdict is {:?}", other),
    }
}

#[test]
fn url_holds_secret_and_response() {
    assert_eq!(
        url("key", "response", None).unwrap(),
        "https://www.google.com/recaptcha/api/siteverify?secret=key&response=response"
    );
}

#[test]
fn url_holds_the_address_of_the_caller_where_it_is_known() {
    assert_eq!(
        url("key", "response", Some("192.0.2.7")).unwrap(),
        "https://www.google.com/recaptcha/api/siteverify?secret=key&response=response&remoteip=192.0.2.7"
    );
    assert_eq!(
        url("key", "response", Some("2001:db8::1")).unwrap(),
        "https://www.google.com/recaptcha/api/siteverify?secret=key&response=response&remoteip=2001%3Adb8%3A%3A1"
    );
}

#[test]
fn url_takes_any_response_as_it_comes() {
    assert_eq!(
        url("k&y", "", None).unwrap(),
        "https://www.google.com/recaptcha/api/siteverify?secret=k%26y&response="
    );
    assert_eq!(
        url("key", "a b=c#d/é", None).unwrap(),
        "https://www.google.com/recaptcha/api/siteverify?secret=key&response=a+b%3Dc%23d%2F%C3%A9"
    );
    assert!(url("key", "x", None).unwrap().starts_with(SITEVERIFY));
}
