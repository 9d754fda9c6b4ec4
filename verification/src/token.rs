//! Issuing bearer tokens.
//!
//! A token is a signed statement of the time of issue and of a random
//! identifier. The identifier makes two tokens differ; the signature is never
//! checked again: whether a token is still good is decided by the end that
//! the store keeps for it.

use vstd::prelude::*;
use vstd::string::*;

verus! {

/// How many characters a signing secret has.
pub const SECRET_LENGTH: usize = 20;

/// What a token states: when it was issued, in nanoseconds since the Unix
/// epoch, and an identifier of its own.
#[derive(Debug)]
pub struct Claims {
    pub timestamp: u128,
    pub uid: String,
}

/// `std::time::SystemTime`: a time of the system's clock. Nothing is known of
/// what a value holds.
#[verifier::external_type_specification]
#[verifier::external_body]
pub struct ExSystemTime(std::time::SystemTime);

/// `SystemTime::now`: the time that the system's clock shows. Nothing is
/// claimed of it.
pub assume_specification[ std::time::SystemTime::now ]() -> (now: std::time::SystemTime)
;

/// `SystemTime::duration_since` with `UNIX_EPOCH`: how long after the Unix
/// epoch the time is; none where it is before. Nothing is claimed of the
/// result.
#[verifier::external_body]
fn since_epoch(time: &std::time::SystemTime) -> (elapsed: Option<std::time::Duration>) {
    time.duration_since(std::time::UNIX_EPOCH).ok()
}

/// `Duration::as_nanos`: the duration in nanoseconds. Nothing is claimed of
/// the number.
pub assume_specification[ std::time::Duration::as_nanos ](duration: &std::time::Duration) -> (nanos:
    u128)
;

/// The nanoseconds that have passed since the Unix epoch by the system's
/// clock; none where the clock stands before the epoch.
pub fn current_timestamp() -> (nanos: Option<u128>) {
    let now = std::time::SystemTime::now();
    match since_epoch(&now) {
        Some(elapsed) => Some(elapsed.as_nanos()),
        None => None,
    }
}

/// Whether a character is a digit or a letter of ASCII.
pub open spec fn is_alphanumeric(c: char) -> bool {
    ('0' <= c <= '9') || ('a' <= c <= 'z') || ('A' <= c <= 'Z')
}

/// Whether a character is a digit of base 16, the letters in lower case.
pub open spec fn is_lower_hex(c: char) -> bool {
    ('0' <= c <= '9') || ('a' <= c <= 'f')
}

/// Whether a text is a random (version 4) UUID in the usual form: 32 digits
/// of base 16 in lower case, in groups of 8, 4, 4, 4 and 12 with a hyphen
/// between two groups; the third group begins with the version, 4, and the
/// fourth with the variant, one of 8, 9, a and b.
pub open spec fn is_uuid_v4(text: Seq<char>) -> bool {
    &&& text.len() == 36
    &&& forall|i: int|
        0 <= i < 36 ==> if i == 8 || i == 13 || i == 18 || i == 23 {
            text[i] == '-'
        } else {
            is_lower_hex(#[trigger] text[i])
        }
    &&& text[14] == '4'
    &&& (text[19] == '8' || text[19] == '9' || text[19] == 'a' || text[19] == 'b')
}

/// `Uuid::new_v4`, written by `to_string`: a random UUID of version 4 in
/// hyphenated lower case. The contract claims that form and nothing of the
/// digits. It panics where the system gives no randomness.
#[verifier::external_body]
fn random_uuid() -> (uid: String)
    ensures
        is_uuid_v4(uid@),
{
    uuid::Uuid::new_v4().to_string()
}

/// `Rng::sample_iter` with `Alphanumeric` on `thread_rng`, the first `length`
/// samples as a string: so many characters, each a digit or a letter of
/// ASCII. Nothing is claimed of which. It panics where the system gives no
/// randomness.
#[verifier::external_body]
fn random_alphanumeric(length: usize) -> (text: String)
    ensures
        text@.len() == length,
        forall|i: int| 0 <= i < text@.len() ==> is_alphanumeric(#[trigger] text@[i]),
{
    rand::Rng::sample_iter(rand::thread_rng(), &rand::distributions::Alphanumeric).take(length).map(char::from).collect()
}

/// The token that `jsonwebtoken` writes, with its default header (HS256) and
/// under a secret, for claims of two members: a number under one name and a
/// text under another. There is none where it cannot write one.
pub uninterp spec fn signed_claims(
    number_name: Seq<char>,
    number: u128,
    text_name: Seq<char>,
    text: Seq<char>,
    secret: Seq<char>,
) -> Option<Seq<char>>;

/// `jsonwebtoken::encode` with `Header::default()`, a JSON object of the two
/// members as the claims, and `EncodingKey::from_secret` of the secret's
/// bytes. The contract gives the result a name and claims nothing else of
/// it; there is no token where the number does not fit a JSON number of 64
/// bits, or where `encode` fails.
#[verifier::external_body]
fn sign(number: (&str, u128), text: (&str, &str), secret: &str) -> (token: Option<String>)
    ensures
        match token {
            Some(token) => signed_claims(number.0@, number.1, text.0@, text.1@, secret@) == Some(
                token@,
            ),
            None => signed_claims(number.0@, number.1, text.0@, text.1@, secret@) is None,
        },
{
    let mut object = serde_json::Map::new();
    object.insert(number.0.to_owned(), serde_json::to_value(number.1).ok()?);
    object.insert(text.0.to_owned(), serde_json::Value::from(text.1));
    let key = jsonwebtoken::EncodingKey::from_secret(secret.as_bytes());
    jsonwebtoken::encode(&jsonwebtoken::Header::default(), &object, &key).ok()
}

/// The token that states a time of issue and an identifier under a secret:
/// the time as the member `timestamp`, the identifier as the member `uid`.
pub open spec fn spec_token_of(timestamp: u128, uid: Seq<char>, secret: Seq<char>) -> Option<
    Seq<char>,
> {
    signed_claims("timestamp"@, timestamp, "uid"@, uid, secret)
}

/// A new secret to sign tokens with: [`SECRET_LENGTH`] random digits and
/// letters.
pub fn new_secret() -> (secret: String)
    ensures
        secret@.len() == SECRET_LENGTH,
        forall|i: int| 0 <= i < secret@.len() ==> is_alphanumeric(#[trigger] secret@[i]),
{
    random_alphanumeric(SECRET_LENGTH)
}

/// The token that states the claims, signed with the secret.
pub fn token_of(claims: &Claims, secret: &str) -> (token: Option<String>)
    ensures
        match token {
            Some(token) => spec_token_of(claims.timestamp, claims.uid@, secret@) == Some(token@),
            None => spec_token_of(claims.timestamp, claims.uid@, secret@) is None,
        },
{
    sign(("timestamp", claims.timestamp), ("uid", claims.uid.as_str()), secret)
}

/// The characters of a token that may be missing.
pub open spec fn token_text(token: Option<String>) -> Option<Seq<char>> {
    match token {
        Some(token) => Some(token@),
        None => None,
    }
}

/// The token that is made when the clock reads `clock` and the fresh
/// identifier is `uid`: the one that states the two under the secret. There
/// is none where the clock gives no time, that is, where it stands before
/// the Unix epoch.
pub open spec fn spec_create_token(clock: Option<u128>, uid: Seq<char>, secret: Seq<char>) -> Option<
    Seq<char>,
> {
    match clock {
        Some(timestamp) => spec_token_of(timestamp, uid, secret),
        None => None,
    }
}

/// There are random UUIDs in the usual form.
proof fn lemma_uuid_v4_exists() -> (uid: Seq<char>)
    ensures
        is_uuid_v4(uid),
{
    reveal_strlit("00000000-0000-4000-8000-000000000000");
    "00000000-0000-4000-8000-000000000000"@
}

/// A new token: the time of the system's clock and a fresh random UUID,
/// signed with the secret. Whether there is a token, and which, is decided by
/// what the clock reads and which identifier is drawn, as
/// [`spec_create_token`] says: there is none where the clock stands before
/// the Unix epoch, or where the claims cannot be signed. No identifier is
/// drawn where the clock gives no time.
pub fn create_token(secret: &str) -> (token: Option<String>)
    ensures
        exists|clock: Option<u128>, uid: Seq<char>|
            is_uuid_v4(uid) && #[trigger] spec_create_token(clock, uid, secret@) == token_text(
                token,
            ),
{
    let clock = current_timestamp();
    match clock {
        Some(timestamp) => {
            let claims = Claims { timestamp, uid: random_uuid() };
            let token = token_of(&claims, secret);
            assert(spec_create_token(clock, claims.uid@, secret@) == token_text(token));
            token
        },
        None => {
            proof {
                let uid = lemma_uuid_v4_exists();
                assert(spec_create_token(clock, uid, secret@) == token_text(None));
            }
            None
        },
    }
}

} // verus!
