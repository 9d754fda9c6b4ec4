//! The records of the store: users, tokens and log entries.

use vstd::prelude::*;
use vstd::string::*;

use crate::text::str_eq;

verus! {

/// A user as the store keeps it. The address names at most one user.
#[derive(Debug)]
pub struct User {
    pub id: i32,
    /// Terms & Conditions - accepted
    pub terms_signed: bool,
    pub not_resident: bool,
    /// Ethereum address
    pub address: String,
    /// Amount of AKT tokens
    pub amount: i64,
}

impl Clone for User {
    fn clone(&self) -> (copy: User)
        ensures
            copy == *self,
    {
        User {
            id: self.id,
            terms_signed: self.terms_signed,
            not_resident: self.not_resident,
            address: self.address.clone(),
            amount: self.amount,
        }
    }
}

/// A user that is about to be put into the store, which gives it its id.
#[derive(Debug, PartialEq, Eq)]
pub struct NewUser<'a> {
    /// Terms & Conditions - accepted
    pub terms_signed: bool,
    pub not_resident: bool,
    /// Ethereum address
    pub address: &'a str,
    /// Amount of AKT tokens
    pub amount: i64,
}

/// A bearer token as the store keeps it. The two times are microseconds since
/// the Unix epoch.
#[derive(Debug)]
pub struct Token {
    pub token: String,
    pub created_at: i64,
    pub expired_at: i64,
}

impl Clone for Token {
    fn clone(&self) -> (copy: Token)
        ensures
            copy == *self,
    {
        Token {
            token: self.token.clone(),
            created_at: self.created_at,
            expired_at: self.expired_at,
        }
    }
}

impl Token {
    /// A token ends after it began.
    pub open spec fn wf(&self) -> bool {
        self.created_at < self.expired_at
    }

    /// Whether the token can still be used at the time `now`.
    pub open spec fn spec_is_valid_at(&self, now: i64) -> bool {
        self.expired_at > now
    }

    /// The token that begins at `now` and lasts for `lifetime` microseconds.
    /// There is none where the lifetime is not positive, or where the end
    /// cannot be written down.
    pub fn issue(token: String, now: i64, lifetime: i64) -> (issued: Option<Token>)
        ensures
            issued is Some <==> lifetime > 0 && now + lifetime <= i64::MAX,
            issued matches Some(t) ==> t.token == token && t.created_at == now && t.expired_at
                == now + lifetime && t.wf() && t.is_valid_at(now),
    {
        if lifetime <= 0 {
            return None;
        }
        match now.checked_add(lifetime) {
            Some(end) => Some(Token { token, created_at: now, expired_at: end }),
            None => None,
        }
    }

    /// Whether the token can still be used at the time `now`: it can while
    /// its end lies after `now`.
    #[verifier::when_used_as_spec(spec_is_valid_at)]
    pub fn is_valid_at(&self, now: i64) -> (valid: bool)
        ensures
            valid == self.spec_is_valid_at(now),
    {
        self.expired_at > now
    }

    /// The token as a row to put into the store.
    pub fn row(&self) -> (row: NewToken<'_>)
        ensures
            row.token@ == self.token@,
    {
        NewToken { token: self.token.as_str() }
    }
}

/// A token that is about to be put into the store.
#[derive(Debug, PartialEq, Eq)]
pub struct NewToken<'a> {
    pub token: &'a str,
}

/// Pairs of strings as pairs of character sequences.
pub open spec fn pair_views(entries: Seq<(String, String)>) -> Seq<(Seq<char>, Seq<char>)> {
    entries.map_values(|entry: (String, String)| (entry.0@, entry.1@))
}

/// The mapping that a list of pairs stands for: each key with the value of
/// its last pair.
pub open spec fn as_map(pairs: Seq<(Seq<char>, Seq<char>)>) -> Map<Seq<char>, Seq<char>>
    decreases pairs.len(),
{
    if pairs.len() == 0 {
        Map::empty()
    } else {
        as_map(pairs.drop_last()).insert(pairs.last().0, pairs.last().1)
    }
}

/// Whether no key stands in two pairs.
pub open spec fn distinct_keys(pairs: Seq<(Seq<char>, Seq<char>)>) -> bool {
    forall|i: int, j: int| 0 <= i < j < pairs.len() ==> pairs[i].0 != pairs[j].0
}

/// A key is in the mapping of a list exactly if a pair of the list has it.
pub proof fn lemma_as_map_keys(pairs: Seq<(Seq<char>, Seq<char>)>, key: Seq<char>)
    ensures
        as_map(pairs).contains_key(key) <==> exists|i: int|
            0 <= i < pairs.len() && (#[trigger] pairs[i]).0 == key,
    decreases pairs.len(),
{
    if pairs.len() > 0 {
        let front = pairs.drop_last();
        lemma_as_map_keys(front, key);
        if as_map(pairs).contains_key(key) {
            if pairs.last().0 == key {
                assert(pairs[pairs.len() - 1].0 == key);
            } else {
                let i = choose|i: int| 0 <= i < front.len() && (#[trigger] front[i]).0 == key;
                assert(pairs[i].0 == key);
            }
        }
        if exists|i: int| 0 <= i < pairs.len() && (#[trigger] pairs[i]).0 == key {
            let i = choose|i: int| 0 <= i < pairs.len() && (#[trigger] pairs[i]).0 == key;
            if i < front.len() {
                assert(front[i].0 == key);
            }
        }
    }
}

/// Where no key stands twice, the mapping gives each pair's key that pair's
/// value.
pub proof fn lemma_as_map_value(pairs: Seq<(Seq<char>, Seq<char>)>, at: int)
    requires
        distinct_keys(pairs),
        0 <= at < pairs.len(),
    ensures
        as_map(pairs).contains_key(pairs[at].0),
        as_map(pairs)[pairs[at].0] == pairs[at].1,
    decreases pairs.len(),
{
    if at < pairs.len() - 1 {
        let front = pairs.drop_last();
        assert(front[at] == pairs[at]);
        assert(pairs[at].0 != pairs[pairs.len() - 1].0);
        lemma_as_map_value(front, at);
    }
}

/// Where no key stands twice, the mapping has as many keys as the list has
/// pairs.
pub proof fn lemma_as_map_len(pairs: Seq<(Seq<char>, Seq<char>)>)
    requires
        distinct_keys(pairs),
    ensures
        as_map(pairs).dom().finite(),
        as_map(pairs).len() == pairs.len(),
    decreases pairs.len(),
{
    if pairs.len() > 0 {
        let front = pairs.drop_last();
        let last = pairs.last();
        lemma_as_map_len(front);
        lemma_as_map_keys(front, last.0);
        if as_map(front).contains_key(last.0) {
            let i = choose|i: int| 0 <= i < front.len() && (#[trigger] front[i]).0 == last.0;
            assert(pairs[i].0 == pairs[pairs.len() - 1].0);
        }
    }
}

/// Where no key stands twice, giving one pair another value is inserting at
/// its key.
pub proof fn lemma_as_map_update(pairs: Seq<(Seq<char>, Seq<char>)>, at: int, value: Seq<char>)
    requires
        distinct_keys(pairs),
        0 <= at < pairs.len(),
    ensures
        as_map(pairs.update(at, (pairs[at].0, value))) == as_map(pairs).insert(pairs[at].0, value),
        distinct_keys(pairs.update(at, (pairs[at].0, value))),
    decreases pairs.len(),
{
    let key = pairs[at].0;
    let changed = pairs.update(at, (key, value));
    let front = pairs.drop_last();
    if at == pairs.len() - 1 {
        assert(changed.drop_last() =~= front);
        assert(as_map(changed) =~= as_map(pairs).insert(key, value));
    } else {
        assert(front[at] == pairs[at]);
        assert(changed.drop_last() =~= front.update(at, (key, value)));
        assert(pairs[at].0 != pairs[pairs.len() - 1].0);
        lemma_as_map_update(front, at, value);
        assert(as_map(changed) =~= as_map(pairs).insert(key, value));
    }
}

/// What is recorded with a log entry: a mapping from strings to strings, such
/// as the headers of the request that caused the entry.
#[derive(Debug)]
pub struct PayloadWrapper {
    entries: Vec<(String, String)>,
}

impl View for PayloadWrapper {
    type V = Map<Seq<char>, Seq<char>>;

    closed spec fn view(&self) -> Map<Seq<char>, Seq<char>> {
        as_map(pair_views(self.entries@))
    }
}

impl PayloadWrapper {
    #[verifier::type_invariant]
    spec fn keys_once(self) -> bool {
        distinct_keys(pair_views(self.entries@))
    }

    /// The empty mapping.
    pub fn new() -> (payload: PayloadWrapper)
        ensures
            payload@ == Map::<Seq<char>, Seq<char>>::empty(),
    {
        PayloadWrapper { entries: Vec::new() }
    }

    /// How many keys the mapping has.
    pub fn len(&self) -> (n: usize)
        ensures
            self@.dom().finite(),
            n == self@.len(),
    {
        proof {
            use_type_invariant(self);
            lemma_as_map_len(pair_views(self.entries@));
        }
        self.entries.len()
    }

    /// Where the key stands among the entries, if it does.
    fn position(&self, key: &str) -> (found: Option<usize>)
        ensures
            match found {
                Some(at) => at < self.entries.len() && self.entries[at as int].0@ == key@,
                None => !self@.contains_key(key@),
            },
    {
        let mut i: usize = 0;
        while i < self.entries.len()
            invariant
                i <= self.entries.len(),
                forall|k: int| 0 <= k < i ==> self.entries[k].0@ != key@,
            decreases self.entries.len() - i,
        {
            if str_eq(self.entries[i].0.as_str(), key) {
                return Some(i);
            }
            i += 1;
        }
        proof {
            lemma_as_map_keys(pair_views(self.entries@), key@);
        }
        None
    }

    /// The value that stands at the key, if one does.
    pub fn get(&self, key: &str) -> (value: Option<&String>)
        ensures
            match value {
                Some(v) => self@.contains_key(key@) && v@ == self@[key@],
                None => !self@.contains_key(key@),
            },
    {
        match self.position(key) {
            Some(at) => {
                proof {
                    use_type_invariant(self);
                    lemma_as_map_value(pair_views(self.entries@), at as int);
                }
                Some(&self.entries[at].1)
            },
            None => None,
        }
    }

    /// Puts the value at the key, in place of what stood there.
    pub fn insert(&mut self, key: String, value: String)
        ensures
            final(self)@ == old(self)@.insert(key@, value@),
    {
        proof {
            use_type_invariant(&*self);
        }
        let found = self.position(key.as_str());
        let ghost before = pair_views(self.entries@);
        // The entries leave the mapping while they change: were the change
        // to unwind, the mapping would still be one.
        let mut entries: Vec<(String, String)> = Vec::new();
        core::mem::swap(&mut self.entries, &mut entries);
        match found {
            Some(at) => {
                entries.set(at, (key, value));
                proof {
                    lemma_as_map_update(before, at as int, value@);
                    assert(pair_views(entries@) =~= before.update(at as int, (before[at as int].0, value@)));
                }
            },
            None => {
                entries.push((key, value));
                proof {
                    lemma_as_map_keys(before, key@);
                    assert(pair_views(entries@) =~= before.push((key@, value@)));
                    assert(before.push((key@, value@)).drop_last() =~= before);
                }
            },
        }
        core::mem::swap(&mut self.entries, &mut entries);
    }

    /// The mapping that a list of pairs stands for. Where a key comes twice,
    /// the later pair counts.
    pub fn from_pairs(pairs: &Vec<(String, String)>) -> (payload: PayloadWrapper)
        ensures
            payload@ == as_map(pair_views(pairs@)),
    {
        let mut payload = PayloadWrapper::new();
        let mut i: usize = 0;
        while i < pairs.len()
            invariant
                i <= pairs.len(),
                payload@ == as_map(pair_views(pairs@.take(i as int))),
            decreases pairs.len() - i,
        {
            payload.insert(pairs[i].0.clone(), pairs[i].1.clone());
            proof {
                let now = pair_views(pairs@.take(i + 1));
                assert(now.drop_last() =~= pair_views(pairs@.take(i as int)));
            }
            i += 1;
        }
        assert(pairs@.take(i as int) =~= pairs@);
        payload
    }

    /// The pairs of the mapping, each key once.
    pub fn pairs(&self) -> (pairs: Vec<(String, String)>)
        ensures
            as_map(pair_views(pairs@)) == self@,
            distinct_keys(pair_views(pairs@)),
    {
        proof {
            use_type_invariant(self);
        }
        let mut pairs: Vec<(String, String)> = Vec::new();
        let mut i: usize = 0;
        while i < self.entries.len()
            invariant
                i <= self.entries.len(),
                pairs.len() == i,
                forall|k: int|
                    0 <= k < i ==> pairs[k].0@ == self.entries[k].0@ && pairs[k].1@
                        == self.entries[k].1@,
            decreases self.entries.len() - i,
        {
            pairs.push((self.entries[i].0.clone(), self.entries[i].1.clone()));
            i += 1;
        }
        assert(pair_views(pairs@) =~= pair_views(self.entries@));
        pairs
    }

    /// The mapping of the headers of a request: each name with its value,
    /// or with [`UNREADABLE_HEADER`] where the value could not be read as
    /// text. Where a name comes twice, the later header counts.
    pub fn from_headers(headers: &Vec<(String, Option<String>)>) -> (payload: PayloadWrapper)
        ensures
            payload@ == as_map(header_pairs(headers@)),
    {
        let mut payload = PayloadWrapper::new();
        let mut i: usize = 0;
        while i < headers.len()
            invariant
                i <= headers.len(),
                payload@ == as_map(header_pairs(headers@.take(i as int))),
            decreases headers.len() - i,
        {
            let value = match &headers[i].1 {
                Some(text) => text.clone(),
                None => UNREADABLE_HEADER.to_owned(),
            };
            payload.insert(headers[i].0.clone(), value);
            proof {
                let now = header_pairs(headers@.take(i + 1));
                assert(now.drop_last() =~= header_pairs(headers@.take(i as int)));
            }
            i += 1;
        }
        assert(headers@.take(i as int) =~= headers@);
        payload
    }

    /// The mapping as the store takes it: [`jsonb_frame`] around the JSON
    /// text of the mapping. There is none where the text cannot be written.
    pub fn to_jsonb(&self) -> (bytes: Option<Vec<u8>>)
        ensures
            match bytes {
                Some(bytes) => json_object(self@) == Some(bytes@.drop_first()) && bytes@.len() > 0
                    && bytes@[0] == JSONB_VERSION,
                None => json_object(self@) is None,
            },
    {
        match json_bytes(self) {
            Some(json) => {
                let bytes = jsonb_frame(json);
                assert(bytes@.drop_first() =~= json@);
                Some(bytes)
            },
            None => None,
        }
    }
}

impl Clone for PayloadWrapper {
    fn clone(&self) -> (copy: PayloadWrapper)
        ensures
            copy@ == self@,
    {
        proof {
            use_type_invariant(self);
        }
        PayloadWrapper { entries: self.pairs() }
    }
}

/// What stands in a payload for a header whose value is not readable text.
pub const UNREADABLE_HEADER: &'static str = "the header value has not visible ASCII chars";

/// The headers of a request as pairs, an unreadable value replaced by
/// [`UNREADABLE_HEADER`].
pub open spec fn header_pairs(headers: Seq<(String, Option<String>)>) -> Seq<
    (Seq<char>, Seq<char>),
> {
    headers.map_values(
        |header: (String, Option<String>)|
            (
                header.0@,
                match header.1 {
                    Some(text) => text@,
                    None => UNREADABLE_HEADER@,
                },
            ),
    )
}

/// The version of the binary JSON format of the store: the byte that stands
/// before the text.
pub const JSONB_VERSION: u8 = 1;

/// The JSON text of the object that has the keys of the mapping as its
/// members, in the order of the keys, each with its value as a JSON string.
pub uninterp spec fn json_object(members: Map<Seq<char>, Seq<char>>) -> Option<Seq<u8>>;

/// `serde_json::to_vec` on the mapping as a `BTreeMap` from string to string.
/// The contract gives its result a name and claims nothing else of it: the
/// text is that name applied to the mapping, and there is no text where
/// `to_vec` fails.
#[verifier::external_body]
fn json_bytes(payload: &PayloadWrapper) -> (json: Option<Vec<u8>>)
    ensures
        match json {
            Some(json) => json_object(payload@) == Some(json@),
            None => json_object(payload@) is None,
        },
{
    let members: std::collections::BTreeMap<&str, &str> = payload.entries.iter().map(
        |entry| (entry.0.as_str(), entry.1.as_str()),
    ).collect();
    serde_json::to_vec(&members).ok()
}

/// A JSON text as the store takes it in its binary JSON format: the version
/// byte, then the text.
pub fn jsonb_frame(json: Vec<u8>) -> (bytes: Vec<u8>)
    ensures
        bytes@ == seq![JSONB_VERSION] + json@,
{
    let mut json = json;
    let mut bytes: Vec<u8> = Vec::new();
    bytes.push(JSONB_VERSION);
    bytes.append(&mut json);
    bytes
}

/// What a log entry records as done.
#[derive(Debug)]
pub enum Action {
    /// A token was issued.
    CreateNewToken,
    /// What the caller named.
    Named(String),
}

impl Action {
    /// The action as the store keeps it.
    pub open spec fn text(&self) -> Seq<char> {
        match self {
            Action::CreateNewToken => "create_new_token"@,
            Action::Named(name) => name@,
        }
    }

    /// The action as the store keeps it.
    pub fn as_str(&self) -> (text: &str)
        ensures
            text@ == self.text(),
    {
        match self {
            Action::CreateNewToken => "create_new_token",
            Action::Named(name) => name.as_str(),
        }
    }
}

/// An entry of the audit log before the store has dated it. The token need
/// not be one that the store knows.
#[derive(Debug)]
pub struct LogEntry {
    pub token: String,
    pub action: Action,
    pub payload: PayloadWrapper,
}

impl LogEntry {
    /// The entry as a row to put into the store.
    pub fn row(&self) -> (row: NewLog<'_>)
        ensures
            row.token@ == self.token@,
            row.action@ == self.action.text(),
            row.payload@ == self.payload@,
    {
        NewLog {
            token: self.token.as_str(),
            action: self.action.as_str(),
            payload: self.payload.clone(),
        }
    }
}

/// A log entry that is about to be put into the store, which dates it.
#[derive(Debug)]
pub struct NewLog<'a> {
    pub token: &'a str,
    pub action: &'a str,
    pub payload: PayloadWrapper,
}

} // verus!
