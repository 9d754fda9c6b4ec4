//! How a request is served.
//!
//! A [`Session`] serves one request. It does none of the work outside the
//! process itself: it names that work as an [`Effect`], and is told what came
//! of it as an [`Event`]. Whoever runs the session does what the effect says
//! and hands the event to [`Session::step`], until the effect is
//! [`Effect::Finish`] with the [`Outcome`]. The steps of one request follow
//! one another; nothing of one request is shared with another.

use vstd::prelude::*;
use vstd::string::*;

use crate::api::{
    ApiError, ApiErrorView, Get, Log, Reg, Resp, RespView, StatusError, StatusOk, UserView,
};
use crate::api::Token as TokenReply;
use crate::recaptcha::CodeSet;
use crate::db::models::{Action, LogEntry, PayloadWrapper, Token, User};

verus! {

/// What a caller asks for.
#[derive(Debug)]
pub enum Request {
    /// Look up the user at an address.
    Get(Get),
    /// Record the flags of the user at an address.
    Register(Reg),
    /// Have a response verified, and nothing else.
    Probe(Get),
    /// Record a token that was just issued, with the headers of the request
    /// that asked for it.
    CreateToken { token: Token, headers: PayloadWrapper },
    /// Append to the audit log under a token.
    Log(Log),
}

/// The work outside the process that a session asks for next.
#[derive(Debug)]
pub enum Effect {
    /// Ask the verification service about the response.
    Verify { response: String },
    /// Read the user at the address.
    FindUser { address: String },
    /// Write the two flags of the user with the id.
    UpdateUser { id: i32, not_resident: bool, terms_signed: bool },
    /// Put the token into the store.
    InsertToken { record: Token },
    /// Read the token, and the time.
    FindToken { token: String },
    /// Append the entry to the log.
    AppendLog { entry: LogEntry },
    /// Nothing more: the request is served.
    Finish(Outcome),
}

/// What came of the work that a session asked for.
#[derive(Debug)]
pub enum Event {
    /// The verification service answered, and this is what its answer means.
    Verdict(Result<(), ApiError>),
    /// The verification service could not be reached, or what it sent could
    /// not be read.
    VerifyFailed,
    /// The store has this user at the address.
    UserFound(User),
    /// The store has no user at the address.
    UserMissing,
    /// The store wrote the flags.
    UserUpdated,
    /// The store has no user with the id.
    UserGone,
    /// The store took the token.
    TokenInserted,
    /// The store has the token already.
    TokenConflict,
    /// The store has this token, and it is now this time, in microseconds
    /// since the Unix epoch.
    TokenFound { token: Token, now: i64 },
    /// The store has no such token.
    TokenMissing,
    /// The store took the log entry.
    LogAppended,
    /// The store failed.
    StoreFailed,
}

/// How the serving of a request ended.
#[derive(Debug)]
pub enum Outcome {
    /// The lookup found the user.
    Found(User),
    /// The registration wrote the flags; the user is as it was before.
    Registered(User),
    /// The lookup or the registration failed.
    Failed(ApiError),
    /// The verification service gave no answer.
    Unverified,
    /// The token is recorded.
    TokenIssued(String),
    /// The log entry is appended.
    Logged,
    /// The token is unknown, or its time is over.
    InvalidToken,
    /// The store failed where that cannot be told as anything else, or an
    /// event came that the session had not asked for.
    Internal,
}

/// Where the serving of a request stands.
#[derive(Debug)]
pub enum Session {
    /// A lookup waits for the verdict.
    SearchVerifying { address: String },
    /// A lookup waits for the user.
    SearchFinding,
    /// A registration waits for the verdict.
    RegisterVerifying { address: String, not_resident: bool, terms: bool },
    /// A registration waits for the user.
    RegisterFinding { not_resident: bool, terms: bool },
    /// A registration waits for its write.
    RegisterUpdating { user: User },
    /// A probe waits for the verdict.
    ProbeVerifying,
    /// A new token waits to be stored; the entry will tell of it.
    TokenInserting { entry: LogEntry },
    /// A new token waits for its log entry.
    TokenLogging { token: String },
    /// A log entry waits for its token to be checked.
    LogChecking { log: Log },
    /// A log entry waits to be appended.
    LogAppending,
    /// The request is served.
    Finished,
}

/// The end of a session with an outcome.
pub open spec fn finish(outcome: Outcome) -> (Session, Effect) {
    (Session::Finished, Effect::Finish(outcome))
}

/// What a lookup answers once the user is read: the user must have accepted
/// the terms, and must be exempt from the residency restriction.
pub open spec fn search_outcome(user: User) -> Outcome {
    if !user.terms_signed {
        Outcome::Failed(ApiError::TermsNotAccepted)
    } else if !user.not_resident {
        Outcome::Failed(ApiError::UserIsResident)
    } else {
        Outcome::Found(user)
    }
}

/// What a verdict that does not let the request go on ends it with.
pub open spec fn refusal(event: Event) -> Outcome {
    match event {
        Event::Verdict(Err(error)) => Outcome::Failed(error),
        Event::VerifyFailed => Outcome::Unverified,
        _ => Outcome::Internal,
    }
}

/// What a failed read or write of a user ends the request with: the caller
/// is told that there is no such user, whatever went wrong.
pub open spec fn user_failure(event: Event) -> Outcome {
    match event {
        Event::UserMissing | Event::UserGone | Event::StoreFailed => Outcome::Failed(
            ApiError::UserNotFound,
        ),
        _ => Outcome::Internal,
    }
}

impl Session {
    /// The first state and effect of a request.
    ///
    /// A registration that does not claim the exemption from the residency
    /// restriction fails at once, and so does one that does not accept the
    /// terms; every other lookup, registration and probe begins with the
    /// verification of the response. A new token is first stored, and a log
    /// entry begins with the check of its token.
    pub open spec fn spec_begin(request: Request) -> (Session, Effect) {
        match request {
            Request::Get(get) => (
                Session::SearchVerifying { address: get.address },
                Effect::Verify { response: get.recaptcha },
            ),
            Request::Register(reg) => if !reg.not_resident {
                finish(Outcome::Failed(ApiError::UserIsResident))
            } else if !reg.terms {
                finish(Outcome::Failed(ApiError::TermsNotAccepted))
            } else {
                (
                    Session::RegisterVerifying {
                        address: reg.address,
                        not_resident: reg.not_resident,
                        terms: reg.terms,
                    },
                    Effect::Verify { response: reg.recaptcha },
                )
            },
            Request::Probe(get) => (
                Session::ProbeVerifying,
                Effect::Verify { response: get.recaptcha },
            ),
            Request::CreateToken { token, headers } => (
                Session::TokenInserting {
                    entry: LogEntry {
                        token: token.token,
                        action: Action::CreateNewToken,
                        payload: headers,
                    },
                },
                Effect::InsertToken { record: token },
            ),
            Request::Log(log) => (
                Session::LogChecking { log },
                Effect::FindToken { token: log.token },
            ),
        }
    }

    /// The next state and effect, given what came of the last effect.
    ///
    /// An event that the state had not asked for ends the session with
    /// [`Outcome::Internal`].
    pub open spec fn spec_step(self, event: Event) -> (Session, Effect) {
        match self {
            Session::SearchVerifying { address } => match event {
                Event::Verdict(Ok(_)) => (Session::SearchFinding, Effect::FindUser { address }),
                _ => finish(refusal(event)),
            },
            Session::SearchFinding => match event {
                Event::UserFound(user) => finish(search_outcome(user)),
                _ => finish(user_failure(event)),
            },
            Session::RegisterVerifying { address, not_resident, terms } => match event {
                Event::Verdict(Ok(_)) => (
                    Session::RegisterFinding { not_resident, terms },
                    Effect::FindUser { address },
                ),
                _ => finish(refusal(event)),
            },
            Session::RegisterFinding { not_resident, terms } => match event {
                Event::UserFound(user) => (
                    Session::RegisterUpdating { user },
                    Effect::UpdateUser { id: user.id, not_resident, terms_signed: terms },
                ),
                _ => finish(user_failure(event)),
            },
            Session::RegisterUpdating { user } => match event {
                Event::UserUpdated => finish(Outcome::Registered(user)),
                _ => finish(user_failure(event)),
            },
            Session::ProbeVerifying => match event {
                Event::Verdict(Ok(_)) => finish(Outcome::Failed(ApiError::UserNotFound)),
                _ => finish(refusal(event)),
            },
            Session::TokenInserting { entry } => match event {
                Event::TokenInserted => (
                    Session::TokenLogging { token: entry.token },
                    Effect::AppendLog { entry },
                ),
                _ => finish(Outcome::Internal),
            },
            Session::TokenLogging { token } => match event {
                Event::LogAppended => finish(Outcome::TokenIssued(token)),
                _ => finish(Outcome::Internal),
            },
            Session::LogChecking { log } => match event {
                Event::TokenFound { token, now } => if token.is_valid_at(now) {
                    (
                        Session::LogAppending,
                        Effect::AppendLog {
                            entry: LogEntry {
                                token: log.token,
                                action: Action::Named(log.action),
                                payload: log.payload,
                            },
                        },
                    )
                } else {
                    finish(Outcome::InvalidToken)
                },
                Event::TokenMissing => finish(Outcome::InvalidToken),
                _ => finish(Outcome::Internal),
            },
            Session::LogAppending => match event {
                Event::LogAppended => finish(Outcome::Logged),
                _ => finish(Outcome::Internal),
            },
            Session::Finished => finish(Outcome::Internal),
        }
    }

    /// Begins to serve a request: the first state, and the first effect.
    pub fn begin(request: Request) -> (first: (Session, Effect))
        ensures
            first == Session::spec_begin(request),
    {
        match request {
            Request::Get(get) => (
                Session::SearchVerifying { address: get.address },
                Effect::Verify { response: get.recaptcha },
            ),
            Request::Register(reg) => {
                if !reg.not_resident {
                    done(Outcome::Failed(ApiError::UserIsResident))
                } else if !reg.terms {
                    done(Outcome::Failed(ApiError::TermsNotAccepted))
                } else {
                    (
                        Session::RegisterVerifying {
                            address: reg.address,
                            not_resident: reg.not_resident,
                            terms: reg.terms,
                        },
                        Effect::Verify { response: reg.recaptcha },
                    )
                }
            },
            Request::Probe(get) => (
                Session::ProbeVerifying,
                Effect::Verify { response: get.recaptcha },
            ),
            Request::CreateToken { token, headers } => {
                let entry = LogEntry {
                    token: token.token.clone(),
                    action: Action::CreateNewToken,
                    payload: headers,
                };
                (Session::TokenInserting { entry }, Effect::InsertToken { record: token })
            },
            Request::Log(log) => {
                let token = log.token.clone();
                (Session::LogChecking { log }, Effect::FindToken { token })
            },
        }
    }

    /// Takes what came of the last effect, and gives the next state and the
    /// next effect.
    pub fn step(self, event: Event) -> (next: (Session, Effect))
        ensures
            next == self.spec_step(event),
    {
        match self {
            Session::SearchVerifying { address } => match event {
                Event::Verdict(Ok(_)) => (Session::SearchFinding, Effect::FindUser { address }),
                other => done(refuse(other)),
            },
            Session::SearchFinding => match event {
                Event::UserFound(user) => {
                    if !user.terms_signed {
                        done(Outcome::Failed(ApiError::TermsNotAccepted))
                    } else if !user.not_resident {
                        done(Outcome::Failed(ApiError::UserIsResident))
                    } else {
                        done(Outcome::Found(user))
                    }
                },
                other => done(fail_user(other)),
            },
            Session::RegisterVerifying { address, not_resident, terms } => match event {
                Event::Verdict(Ok(_)) => (
                    Session::RegisterFinding { not_resident, terms },
                    Effect::FindUser { address },
                ),
                other => done(refuse(other)),
            },
            Session::RegisterFinding { not_resident, terms } => match event {
                Event::UserFound(user) => {
                    let id = user.id;
                    (
                        Session::RegisterUpdating { user },
                        Effect::UpdateUser { id, not_resident, terms_signed: terms },
                    )
                },
                other => done(fail_user(other)),
            },
            Session::RegisterUpdating { user } => match event {
                Event::UserUpdated => done(Outcome::Registered(user)),
                other => done(fail_user(other)),
            },
            Session::ProbeVerifying => match event {
                Event::Verdict(Ok(_)) => done(Outcome::Failed(ApiError::UserNotFound)),
                other => done(refuse(other)),
            },
            Session::TokenInserting { entry } => match event {
                Event::TokenInserted => {
                    let token = entry.token.clone();
                    (Session::TokenLogging { token }, Effect::AppendLog { entry })
                },
                _ => done(Outcome::Internal),
            },
            Session::TokenLogging { token } => match event {
                Event::LogAppended => done(Outcome::TokenIssued(token)),
                _ => done(Outcome::Internal),
            },
            Session::LogChecking { log } => match event {
                Event::TokenFound { token, now } => {
                    if token.is_valid_at(now) {
                        let entry = LogEntry {
                            token: log.token,
                            action: Action::Named(log.action),
                            payload: log.payload,
                        };
                        (Session::LogAppending, Effect::AppendLog { entry })
                    } else {
                        done(Outcome::InvalidToken)
                    }
                },
                Event::TokenMissing => done(Outcome::InvalidToken),
                _ => done(Outcome::Internal),
            },
            Session::LogAppending => match event {
                Event::LogAppended => done(Outcome::Logged),
                _ => done(Outcome::Internal),
            },
            Session::Finished => done(Outcome::Internal),
        }
    }
}

/// The end of a session with an outcome.
fn done(outcome: Outcome) -> (last: (Session, Effect))
    ensures
        last == finish(outcome),
{
    (Session::Finished, Effect::Finish(outcome))
}

/// What a verdict that does not let the request go on ends it with.
fn refuse(event: Event) -> (outcome: Outcome)
    ensures
        outcome == refusal(event),
{
    match event {
        Event::Verdict(Err(error)) => Outcome::Failed(error),
        Event::VerifyFailed => Outcome::Unverified,
        _ => Outcome::Internal,
    }
}

/// What a failed read or write of a user ends the request with.
fn fail_user(event: Event) -> (outcome: Outcome)
    ensures
        outcome == user_failure(event),
{
    match event {
        Event::UserMissing | Event::UserGone | Event::StoreFailed => Outcome::Failed(
            ApiError::UserNotFound,
        ),
        _ => Outcome::Internal,
    }
}

/// The status of an answer that gives what was asked for.
pub const STATUS_OK: u16 = 200;

/// The status of the answer to a registration that was made.
pub const STATUS_FOUND: u16 = 302;

/// The status of the answer to a log entry under a token that is not good.
pub const STATUS_UNAUTHORIZED: u16 = 401;

/// The status of the answer to a lookup or a registration that failed.
pub const STATUS_NOT_FOUND: u16 = 404;

/// The status of the answer where the store failed.
pub const STATUS_INTERNAL_ERROR: u16 = 500;

/// What an answer carries.
#[derive(Debug)]
pub enum Body {
    /// The user, or the error of a lookup or a registration.
    User(Resp),
    /// The token that was issued.
    Token(TokenReply),
    /// The word that the log entry was taken.
    Taken(StatusOk),
    /// The word that the log entry was refused, and why.
    Refused(StatusError),
    /// Nothing.
    Empty,
}

/// The answer to a request: a status, as HTTP numbers it, and a body.
#[derive(Debug)]
pub struct Reply {
    pub status: u16,
    pub body: Body,
}

/// A [`Body`] with its strings as sequences of characters.
pub ghost enum BodyView {
    User(RespView),
    Token { status: Seq<char>, token: Seq<char> },
    Taken { status: Seq<char> },
    Refused { status: Seq<char>, reason: Seq<char> },
    Empty,
}

/// A [`Reply`] with the view of its body.
pub ghost struct ReplyView {
    pub status: u16,
    pub body: BodyView,
}

impl View for Body {
    type V = BodyView;

    open spec fn view(&self) -> BodyView {
        match self {
            Body::User(resp) => BodyView::User(resp@),
            Body::Token(reply) => BodyView::Token { status: reply.status@, token: reply.token@ },
            Body::Taken(reply) => BodyView::Taken { status: reply.status@ },
            Body::Refused(reply) => BodyView::Refused {
                status: reply.status@,
                reason: reply.reason@,
            },
            Body::Empty => BodyView::Empty,
        }
    }
}

impl View for Reply {
    type V = ReplyView;

    open spec fn view(&self) -> ReplyView {
        ReplyView { status: self.status, body: self.body@ }
    }
}

impl Outcome {
    /// The status that tells the outcome.
    pub open spec fn status(&self) -> u16 {
        match self {
            Outcome::Found(_) | Outcome::TokenIssued(_) | Outcome::Logged => STATUS_OK,
            Outcome::Registered(_) => STATUS_FOUND,
            Outcome::Failed(_) | Outcome::Unverified => STATUS_NOT_FOUND,
            Outcome::InvalidToken => STATUS_UNAUTHORIZED,
            Outcome::Internal => STATUS_INTERNAL_ERROR,
        }
    }

    /// The body that tells the outcome. A verification that gave no answer is
    /// told as one that failed without a reason.
    pub open spec fn body(&self) -> BodyView {
        match self {
            Outcome::Found(user) | Outcome::Registered(user) => BodyView::User(
                RespView {
                    error: None,
                    user: Some(UserView { address: user.address@, amount: user.amount }),
                },
            ),
            Outcome::Failed(error) => BodyView::User(error@.to_resp()),
            Outcome::Unverified => BodyView::User(
                ApiErrorView::RecaptchaErr(Seq::empty()).to_resp(),
            ),
            Outcome::TokenIssued(token) => BodyView::Token { status: "ok"@, token: token@ },
            Outcome::Logged => BodyView::Taken { status: "ok"@ },
            Outcome::InvalidToken => BodyView::Refused {
                status: "error"@,
                reason: "invalid token"@,
            },
            Outcome::Internal => BodyView::Empty,
        }
    }

    /// The answer that tells the outcome.
    pub open spec fn reply(&self) -> ReplyView {
        ReplyView { status: self.status(), body: self.body() }
    }

    /// The answer that tells the outcome to the caller.
    pub fn into_reply(self) -> (reply: Reply)
        ensures
            reply@ == self.reply(),
    {
        match self {
            Outcome::Found(user) => Reply { status: STATUS_OK, body: Body::User(Resp::from(user)) },
            Outcome::Registered(user) => Reply {
                status: STATUS_FOUND,
                body: Body::User(Resp::from(user)),
            },
            Outcome::Failed(error) => Reply {
                status: STATUS_NOT_FOUND,
                body: Body::User(error.to_resp()),
            },
            Outcome::Unverified => Reply {
                status: STATUS_NOT_FOUND,
                body: Body::User(ApiError::RecaptchaErr(CodeSet::new()).to_resp()),
            },
            Outcome::TokenIssued(token) => Reply {
                status: STATUS_OK,
                body: Body::Token(TokenReply { status: "ok".to_owned(), token }),
            },
            Outcome::Logged => Reply {
                status: STATUS_OK,
                body: Body::Taken(StatusOk { status: "ok".to_owned() }),
            },
            Outcome::InvalidToken => Reply {
                status: STATUS_UNAUTHORIZED,
                body: Body::Refused(
                    StatusError { status: "error".to_owned(), reason: "invalid token".to_owned() },
                ),
            },
            Outcome::Internal => Reply { status: STATUS_INTERNAL_ERROR, body: Body::Empty },
        }
    }
}

} // verus!
