//! The human-verification service: the reasons it gives for a refusal, its
//! answer, and the address at which it is asked.

use vstd::prelude::*;
use vstd::std_specs::cmp::PartialEqSpecImpl;
use vstd::string::*;

use crate::api::{ApiError, ApiErrorView};
use crate::text::str_eq;

verus! {

/// A reason that the verification service gives for refusing a response.
///
/// The service's vocabulary is open: a word that is not one of the five known
/// ones is kept as it came, in `Unknown`.
#[derive(Eq, Hash, Debug)]
pub enum Code {
    MissingSecret,
    InvalidSecret,
    MissingResponse,
    InvalidResponse,
    BadRequest,
    Unknown(String),
}

/// What a [`Code`] is, with the unknown word as a sequence of characters.
pub ghost enum CodeView {
    MissingSecret,
    InvalidSecret,
    MissingResponse,
    InvalidResponse,
    BadRequest,
    Unknown(Seq<char>),
}

impl CodeView {
    /// The word that stands for the code on the wire.
    pub open spec fn text(self) -> Seq<char> {
        match self {
            CodeView::MissingSecret => "missing-input-secret"@,
            CodeView::InvalidSecret => "invalid-input-secret"@,
            CodeView::MissingResponse => "missing-input-response"@,
            CodeView::InvalidResponse => "invalid-input-response"@,
            CodeView::BadRequest => "bad-request"@,
            CodeView::Unknown(word) => word,
        }
    }

    /// The code that a word on the wire stands for.
    pub open spec fn parse(word: Seq<char>) -> CodeView {
        if word == "missing-input-secret"@ {
            CodeView::MissingSecret
        } else if word == "invalid-input-secret"@ {
            CodeView::InvalidSecret
        } else if word == "missing-input-response"@ {
            CodeView::MissingResponse
        } else if word == "invalid-input-response"@ {
            CodeView::InvalidResponse
        } else if word == "bad-request"@ {
            CodeView::BadRequest
        } else {
            CodeView::Unknown(word)
        }
    }

    /// Whether the code is one that [`CodeView::parse`] can give.
    pub open spec fn canonical(self) -> bool {
        self matches CodeView::Unknown(word) ==> CodeView::parse(word) == self
    }
}

impl View for Code {
    type V = CodeView;

    open spec fn view(&self) -> CodeView {
        match self {
            Code::MissingSecret => CodeView::MissingSecret,
            Code::InvalidSecret => CodeView::InvalidSecret,
            Code::MissingResponse => CodeView::MissingResponse,
            Code::InvalidResponse => CodeView::InvalidResponse,
            Code::BadRequest => CodeView::BadRequest,
            Code::Unknown(word) => CodeView::Unknown(word@),
        }
    }
}

impl Clone for Code {
    fn clone(&self) -> (copy: Code)
        ensures
            copy == *self,
    {
        match self {
            Code::MissingSecret => Code::MissingSecret,
            Code::InvalidSecret => Code::InvalidSecret,
            Code::MissingResponse => Code::MissingResponse,
            Code::InvalidResponse => Code::InvalidResponse,
            Code::BadRequest => Code::BadRequest,
            Code::Unknown(word) => Code::Unknown(word.clone()),
        }
    }
}

impl PartialEq for Code {
    fn eq(&self, other: &Code) -> (same: bool) {
        match (self, other) {
            (Code::MissingSecret, Code::MissingSecret) => true,
            (Code::InvalidSecret, Code::InvalidSecret) => true,
            (Code::MissingResponse, Code::MissingResponse) => true,
            (Code::InvalidResponse, Code::InvalidResponse) => true,
            (Code::BadRequest, Code::BadRequest) => true,
            (Code::Unknown(a), Code::Unknown(b)) => *a == *b,
            _ => false,
        }
    }
}

impl PartialEqSpecImpl for Code {
    open spec fn obeys_eq_spec() -> bool {
        true
    }

    open spec fn eq_spec(&self, other: &Code) -> bool {
        self@ == other@
    }
}

impl Code {
    /// Reads a code from the word that the service sent. An unrecognised word
    /// is kept whole.
    pub fn parse(word: String) -> (code: Code)
        ensures
            code@ == CodeView::parse(word@),
    {
        if str_eq(word.as_str(), "missing-input-secret") {
            Code::MissingSecret
        } else if str_eq(word.as_str(), "invalid-input-secret") {
            Code::InvalidSecret
        } else if str_eq(word.as_str(), "missing-input-response") {
            Code::MissingResponse
        } else if str_eq(word.as_str(), "invalid-input-response") {
            Code::InvalidResponse
        } else if str_eq(word.as_str(), "bad-request") {
            Code::BadRequest
        } else {
            Code::Unknown(word)
        }
    }

    /// The word that stands for the code on the wire.
    pub fn as_str(&self) -> (word: &str)
        ensures
            word@ == self@.text(),
    {
        match self {
            Code::MissingSecret => "missing-input-secret",
            Code::InvalidSecret => "invalid-input-secret",
            Code::MissingResponse => "missing-input-response",
            Code::InvalidResponse => "invalid-input-response",
            Code::BadRequest => "bad-request",
            Code::Unknown(word) => word.as_str(),
        }
    }

    /// The word that stands for the code on the wire, as an owned string.
    pub fn to_string(&self) -> (word: String)
        ensures
            word@ == self@.text(),
    {
        self.as_str().to_owned()
    }
}

/// A set of codes with `code` in it: `set` itself where it holds the code
/// already, else `set` with the code at its end.
pub open spec fn with_code(set: Seq<CodeView>, code: CodeView) -> Seq<CodeView> {
    if set.contains(code) {
        set
    } else {
        set.push(code)
    }
}

/// The codes of a list, each kept where it first occurs.
pub open spec fn collect(codes: Seq<CodeView>) -> Seq<CodeView>
    decreases codes.len(),
{
    if codes.len() == 0 {
        Seq::empty()
    } else {
        with_code(collect(codes.drop_last()), codes.last())
    }
}

/// The codes that a list of words stands for, word by word.
pub open spec fn parse_all(words: Seq<String>) -> Seq<CodeView> {
    words.map_values(|word: String| CodeView::parse(word@))
}

/// The reasons of one answer: every code at most once, in the order in which
/// each first came.
#[derive(Debug)]
pub struct CodeSet {
    codes: Vec<Code>,
}

impl View for CodeSet {
    type V = Seq<CodeView>;

    closed spec fn view(&self) -> Seq<CodeView> {
        self.codes@.map_values(|code: Code| code@)
    }
}

impl CodeSet {
    #[verifier::type_invariant]
    spec fn distinct(self) -> bool {
        forall|i: int, j: int| 0 <= i < j < self.codes.len() ==> self.codes[i]@ != self.codes[j]@
    }

    /// The set without a code.
    pub fn new() -> (set: CodeSet)
        ensures
            set@ == Seq::<CodeView>::empty(),
    {
        let set = CodeSet { codes: Vec::new() };
        assert(set@ =~= Seq::<CodeView>::empty());
        set
    }

    /// How many codes the set holds.
    pub fn len(&self) -> (n: usize)
        ensures
            n == self@.len(),
            self@.no_duplicates(),
    {
        proof {
            use_type_invariant(self);
        }
        self.codes.len()
    }

    /// Whether the set holds no code.
    pub fn is_empty(&self) -> (empty: bool)
        ensures
            empty == (self@.len() == 0),
    {
        self.codes.len() == 0
    }

    /// The code at a place of the set, places counted from 0.
    pub fn get(&self, place: usize) -> (code: &Code)
        requires
            place < self@.len(),
        ensures
            code@ == self@[place as int],
    {
        &self.codes[place]
    }

    /// Whether the set holds the code.
    pub fn contains(&self, code: &Code) -> (found: bool)
        ensures
            found == self@.contains(code@),
    {
        let mut i: usize = 0;
        while i < self.codes.len()
            invariant
                i <= self.codes.len(),
                forall|k: int| 0 <= k < i ==> self@[k] != code@,
            decreases self.codes.len() - i,
        {
            if self.codes[i] == *code {
                assert(self@[i as int] == code@);
                return true;
            }
            i += 1;
        }
        false
    }

    /// Puts the code into the set, and says whether it was new.
    pub fn insert(&mut self, code: Code) -> (added: bool)
        ensures
            added == !old(self)@.contains(code@),
            final(self)@ == with_code(old(self)@, code@),
    {
        proof {
            use_type_invariant(&*self);
        }
        if self.contains(&code) {
            false
        } else {
            let ghost before = self@;
            // The codes leave the set while they grow: were the push to
            // unwind, the set would still be one.
            let mut codes: Vec<Code> = Vec::new();
            core::mem::swap(&mut self.codes, &mut codes);
            codes.push(code);
            assert forall|i: int, j: int| 0 <= i < j < codes.len() implies codes[i]@ != codes[j]@ by {
                if j == codes.len() - 1 {
                    assert(before[i] == codes[i]@);
                }
            }
            core::mem::swap(&mut self.codes, &mut codes);
            assert(self@ =~= before.push(code@));
            true
        }
    }

    /// The set of the codes that a list of words stands for.
    pub fn from_words(words: &Vec<String>) -> (set: CodeSet)
        ensures
            set@ == collect(parse_all(words@)),
    {
        let mut set = CodeSet::new();
        let mut i: usize = 0;
        while i < words.len()
            invariant
                i <= words.len(),
                set@ == collect(parse_all(words@.take(i as int))),
            decreases words.len() - i,
        {
            let code = Code::parse(words[i].clone());
            set.insert(code);
            proof {
                let now = parse_all(words@.take(i + 1));
                assert(now.drop_last() =~= parse_all(words@.take(i as int)));
                assert(now.last() == CodeView::parse(words@[i as int]@));
            }
            i += 1;
        }
        assert(words@.take(i as int) =~= words@);
        set
    }
}

/// Collecting drops repetitions and nothing else: what comes out holds no
/// code twice, and holds a code exactly if the list did.
pub proof fn lemma_collect_is_the_set(codes: Seq<CodeView>)
    ensures
        collect(codes).no_duplicates(),
        forall|code: CodeView| collect(codes).contains(code) <==> codes.contains(code),
    decreases codes.len(),
{
    if codes.len() > 0 {
        let front = codes.drop_last();
        let last = codes.last();
        let kept = collect(front);
        let all = collect(codes);
        lemma_collect_is_the_set(front);
        assert forall|code: CodeView| all.contains(code) <==> codes.contains(code) by {
            if codes.contains(code) {
                let k = choose|k: int| 0 <= k < codes.len() && codes[k] == code;
                if k < front.len() {
                    assert(front[k] == code);
                    assert(front.contains(code));
                    assert(kept.contains(code));
                    let j = choose|j: int| 0 <= j < kept.len() && kept[j] == code;
                    assert(all[j] == code);
                } else if !kept.contains(last) {
                    assert(all[kept.len() as int] == code);
                }
            }
            if all.contains(code) {
                let k = choose|k: int| 0 <= k < all.len() && all[k] == code;
                if k < kept.len() {
                    assert(kept[k] == code);
                    assert(kept.contains(code));
                    assert(front.contains(code));
                    let j = choose|j: int| 0 <= j < front.len() && front[j] == code;
                    assert(codes[j] == code);
                } else {
                    assert(codes[codes.len() - 1] == code);
                }
            }
        }
    }
}

/// Reading a word and writing the code back gives the word: no reason that
/// the service sent is lost or altered, whether it is known or not.
pub proof fn lemma_parse_keeps_word(word: Seq<char>)
    ensures
        CodeView::parse(word).text() == word,
        CodeView::parse(word).canonical(),
{
}

/// Writing a code and reading the word back gives the code, for every code
/// that comes from reading.
pub proof fn lemma_text_names_code(code: CodeView)
    requires
        code.canonical(),
    ensures
        CodeView::parse(code.text()) == code,
{
    reveal_strlit("missing-input-secret");
    reveal_strlit("invalid-input-secret");
    reveal_strlit("missing-input-response");
    reveal_strlit("invalid-input-response");
    reveal_strlit("bad-request");
    let a = "missing-input-secret"@;
    let b = "invalid-input-secret"@;
    let c = "missing-input-response"@;
    let d = "invalid-input-response"@;
    let e = "bad-request"@;
    assert(a[0] != b[0] && a[0] != e[0] && b[0] != e[0]);
    assert(a.len() != c.len() && a.len() != d.len() && b.len() != c.len() && b.len() != d.len());
    assert(c[0] != d[0] && c[0] != e[0] && d[0] != e[0]);
}

/// What the verification service answered: whether it accepts the response,
/// and the reasons it gave, if it gave any.
#[derive(Debug)]
pub struct RecaptchaResponse {
    pub success: bool,
    pub error_codes: Option<CodeSet>,
}

impl RecaptchaResponse {
    /// The reasons of the answer: none where it names none.
    pub open spec fn reasons(&self) -> Seq<CodeView> {
        match self.error_codes {
            Some(codes) => codes@,
            None => Seq::empty(),
        }
    }

    /// The answer from what stood on the wire: the flag, and the words of the
    /// reasons where there were any, each word read by [`Code::parse`] and
    /// each code kept once.
    pub fn from_wire(success: bool, error_codes: Option<Vec<String>>) -> (answer: RecaptchaResponse)
        ensures
            answer.success == success,
            match error_codes {
                Some(words) => answer.error_codes matches Some(codes) && codes@ == collect(
                    parse_all(words@),
                ),
                None => answer.error_codes is None,
            },
    {
        let error_codes = match error_codes {
            Some(words) => Some(CodeSet::from_words(&words)),
            None => None,
        };
        RecaptchaResponse { success, error_codes }
    }

    /// Whether a verdict is what the answer means: the request may go on
    /// where the service accepts the response, whatever reasons stand beside;
    /// else it fails with exactly the reasons that the service gave.
    pub open spec fn means(&self, verdict: Result<(), ApiError>) -> bool {
        match verdict {
            Ok(_) => self.success,
            Err(error) => {
                &&& !self.success
                &&& error@ == ApiErrorView::RecaptchaErr(self.reasons())
                &&& self.error_codes matches Some(codes) ==> error == ApiError::RecaptchaErr(codes)
            },
        }
    }

    /// What the answer means for the request.
    pub fn verdict(self) -> (verdict: Result<(), ApiError>)
        ensures
            self.means(verdict),
    {
        if self.success {
            Ok(())
        } else {
            match self.error_codes {
                Some(codes) => Err(ApiError::RecaptchaErr(codes)),
                None => Err(ApiError::RecaptchaErr(CodeSet::new())),
            }
        }
    }
}

/// Where the verification service is asked.
pub const SITEVERIFY: &'static str = "https://www.google.com/recaptcha/api/siteverify";

/// What the verification service is told: the shared secret, the caller's
/// response, and the caller's address where it is known.
pub open spec fn query(key: Seq<char>, response: Seq<char>, user_ip: Option<Seq<char>>) -> Seq<
    (Seq<char>, Seq<char>),
> {
    let pairs = seq![("secret"@, key), ("response"@, response)];
    match user_ip {
        Some(ip) => pairs.push(("remoteip"@, ip)),
        None => pairs,
    }
}

/// The URL that `url::Url` writes for an address with the pairs appended to
/// its query in the form `application/x-www-form-urlencoded`; none where it
/// does not take the address for a URL.
pub uninterp spec fn url_with_query(
    base: Seq<char>,
    pairs: Seq<(Seq<char>, Seq<char>)>,
) -> Option<Seq<char>>;

/// Pairs of string slices as pairs of character sequences.
pub open spec fn slice_pairs(pairs: Seq<(&str, &str)>) -> Seq<(Seq<char>, Seq<char>)> {
    pairs.map_values(|pair: (&str, &str)| (pair.0@, pair.1@))
}

/// `Url::parse` on the address, then `Url::query_pairs_mut` and
/// `Serializer::extend_pairs` with the pairs, and the URL as a string.
/// The contract gives the result a name and claims nothing else of it. The
/// address may hold no `#`: behind a fragment the crate counts the URL's
/// length in 32 bits and panics beyond.
#[verifier::external_body]
fn with_query(base: &str, pairs: &Vec<(&str, &str)>) -> (url: Option<String>)
    requires
        !base@.contains('#'),
    ensures
        match url {
            Some(url) => url_with_query(base@, slice_pairs(pairs@)) == Some(url@),
            None => url_with_query(base@, slice_pairs(pairs@)) is None,
        },
{
    let mut url = url::Url::parse(base).ok()?;
    url.query_pairs_mut().extend_pairs(pairs);
    Some(String::from(url))
}

/// The address of the verification service holds no fragment.
proof fn lemma_siteverify_has_no_fragment()
    ensures
        !SITEVERIFY@.contains('#'),
{
    reveal_strlit("https://www.google.com/recaptcha/api/siteverify");
}

/// The characters of a string slice that may be missing.
pub open spec fn chars_of(text: Option<&str>) -> Option<Seq<char>> {
    match text {
        Some(text) => Some(text@),
        None => None,
    }
}

/// The URL at which the verification service is asked: [`SITEVERIFY`] with
/// [`query`] as its query.
pub open spec fn spec_url(key: Seq<char>, response: Seq<char>, user_ip: Option<Seq<char>>) -> Option<
    Seq<char>,
> {
    url_with_query(SITEVERIFY@, query(key, response, user_ip))
}

/// The URL at which the verification service is asked about a response:
/// [`SITEVERIFY`] with [`query`] as its query. The response goes out as it
/// came, whatever it holds.
pub fn url(key: &str, response: &str, user_ip: Option<&str>) -> (url: Option<String>)
    ensures
        match url {
            Some(url) => spec_url(key@, response@, chars_of(user_ip)) == Some(url@),
            None => spec_url(key@, response@, chars_of(user_ip)) is None,
        },
{
    let mut pairs: Vec<(&str, &str)> = Vec::new();
    pairs.push(("secret", key));
    pairs.push(("response", response));
    if let Some(ip) = user_ip {
        pairs.push(("remoteip", ip));
    }
    proof {
        lemma_siteverify_has_no_fragment();
        assert(slice_pairs(pairs@) =~= query(key@, response@, chars_of(user_ip)));
    }
    with_query(SITEVERIFY, &pairs)
}

} // verus!
