//! The record store as a mathematical object, and what holds of the service
//! over every store.
//!
//! The store itself is outside this crate. [`Store`] says what it keeps and
//! how it answers; [`serve`] says what a request comes to when the store and
//! the verification service answer as [`answer`] says. The lemmas of this
//! module are stated over [`serve`].

use vstd::prelude::*;

use crate::api::{ApiError, ApiErrorView, Get, Log, Reg};
use crate::db::models::{Action, LogEntry, PayloadWrapper, Token, User};
use crate::recaptcha::RecaptchaResponse;
use crate::workflow::{finish, BodyView, Effect, Event, Outcome, Request, Session};

verus! {

/// What the store keeps: the users, the tokens and the log, each in the
/// order in which its records came.
pub ghost struct Store {
    pub users: Seq<User>,
    pub tokens: Seq<Token>,
    pub logs: Seq<LogEntry>,
}

/// What is outside a session and not in the store: what the verification
/// service makes of the response (nothing, where it cannot be reached), and
/// the time, in microseconds since the Unix epoch.
pub ghost struct World {
    pub verdict: Option<Result<(), ApiError>>,
    pub now: i64,
}

impl Store {
    /// An address names at most one user, and so does an id; a string names
    /// at most one token.
    pub open spec fn wf(self) -> bool {
        &&& forall|i: int, j: int|
            0 <= i < j < self.users.len() ==> (#[trigger] self.users[i]).address@ != (
            #[trigger] self.users[j]).address@
        &&& forall|i: int, j: int|
            0 <= i < j < self.users.len() ==> (#[trigger] self.users[i]).id != (
            #[trigger] self.users[j]).id
        &&& forall|i: int, j: int|
            0 <= i < j < self.tokens.len() ==> (#[trigger] self.tokens[i]).token@ != (
            #[trigger] self.tokens[j]).token@
    }

    /// Whether a user has the address.
    pub open spec fn has_user(self, address: Seq<char>) -> bool {
        exists|i: int| 0 <= i < self.users.len() && (#[trigger] self.users[i]).address@ == address
    }

    /// A user that has the address.
    pub open spec fn user_at(self, address: Seq<char>) -> User {
        self.users[choose|i: int|
            0 <= i < self.users.len() && (#[trigger] self.users[i]).address@ == address]
    }

    /// Whether a user has the id.
    pub open spec fn has_id(self, id: i32) -> bool {
        exists|i: int| 0 <= i < self.users.len() && (#[trigger] self.users[i]).id == id
    }

    /// Whether a token has the string.
    pub open spec fn has_token(self, token: Seq<char>) -> bool {
        exists|i: int| 0 <= i < self.tokens.len() && (#[trigger] self.tokens[i]).token@ == token
    }

    /// A token that has the string.
    pub open spec fn token_at(self, token: Seq<char>) -> Token {
        self.tokens[choose|i: int|
            0 <= i < self.tokens.len() && (#[trigger] self.tokens[i]).token@ == token]
    }

    /// Reading the user at an address.
    pub open spec fn find_user(self, address: Seq<char>) -> Event {
        if self.has_user(address) {
            Event::UserFound(self.user_at(address))
        } else {
            Event::UserMissing
        }
    }

    /// A user after a write of the two flags to the id: changed where the id
    /// is the user's, and only in the flags.
    pub open spec fn written(user: User, id: i32, not_resident: bool, terms_signed: bool) -> User {
        if user.id == id {
            User {
                id: user.id,
                terms_signed,
                not_resident,
                address: user.address,
                amount: user.amount,
            }
        } else {
            user
        }
    }

    /// Writing the two flags of the user with an id.
    pub open spec fn update_user(self, id: i32, not_resident: bool, terms_signed: bool) -> (
        Store,
        Event,
    ) {
        if self.has_id(id) {
            (
                Store {
                    users: self.users.map_values(
                        |user: User| Store::written(user, id, not_resident, terms_signed),
                    ),
                    tokens: self.tokens,
                    logs: self.logs,
                },
                Event::UserUpdated,
            )
        } else {
            (self, Event::UserGone)
        }
    }

    /// Putting a token into the store.
    pub open spec fn insert_token(self, token: Token) -> (Store, Event) {
        if self.has_token(token.token@) {
            (self, Event::TokenConflict)
        } else {
            (
                Store { users: self.users, tokens: self.tokens.push(token), logs: self.logs },
                Event::TokenInserted,
            )
        }
    }

    /// Reading the token with a string, at a time.
    pub open spec fn find_token(self, token: Seq<char>, now: i64) -> Event {
        if self.has_token(token) {
            Event::TokenFound { token: self.token_at(token), now }
        } else {
            Event::TokenMissing
        }
    }

    /// Appending an entry to the log.
    pub open spec fn append_log(self, entry: LogEntry) -> (Store, Event) {
        (
            Store { users: self.users, tokens: self.tokens, logs: self.logs.push(entry) },
            Event::LogAppended,
        )
    }
}

/// What comes of an effect: the store after it, and the event that tells of
/// it. The store does not fail here.
pub open spec fn answer(world: World, store: Store, effect: Effect) -> (Store, Event) {
    match effect {
        Effect::Verify { response } => (
            store,
            match world.verdict {
                Some(verdict) => Event::Verdict(verdict),
                None => Event::VerifyFailed,
            },
        ),
        Effect::FindUser { address } => (store, store.find_user(address@)),
        Effect::UpdateUser { id, not_resident, terms_signed } => store.update_user(
            id,
            not_resident,
            terms_signed,
        ),
        Effect::InsertToken { record } => store.insert_token(record),
        Effect::FindToken { token } => (store, store.find_token(token@, world.now)),
        Effect::AppendLog { entry } => store.append_log(entry),
        Effect::Finish(_) => (store, Event::StoreFailed),
    }
}

/// A session run to its end, or for `steps` effects: the store after it, and
/// the outcome.
pub open spec fn run(world: World, store: Store, session: Session, effect: Effect, steps: nat) -> (
    Store,
    Outcome,
)
    decreases steps,
{
    match effect {
        Effect::Finish(outcome) => (store, outcome),
        _ => if steps == 0 {
            (store, Outcome::Internal)
        } else {
            let (store, event) = answer(world, store, effect);
            let (session, effect) = session.spec_step(event);
            run(world, store, session, effect, (steps - 1) as nat)
        },
    }
}

/// The most effects that a request asks for.
pub open spec fn most_effects() -> nat {
    3
}

/// What a request comes to: the store after it, and the outcome.
pub open spec fn serve(world: World, store: Store, request: Request) -> (Store, Outcome) {
    let (session, effect) = Session::spec_begin(request);
    run(world, store, session, effect, most_effects())
}

/// The verification service accepts the response.
pub open spec fn accepted(world: World) -> bool {
    world.verdict == Some(Ok::<(), ApiError>(()))
}

/// A lookup of an address that no user has fails with "user not found", once
/// the verification service has accepted the response. The store stays as
/// it is.
pub proof fn lemma_lookup_of_unknown_address(world: World, store: Store, get: Get)
    requires
        accepted(world),
        !store.has_user(get.address@),
    ensures
        serve(world, store, Request::Get(get)) == (store, Outcome::Failed(ApiError::UserNotFound)),
{
    reveal_with_fuel(run, 4);
}

/// A registration of an address that no user has fails with "user not
/// found", once the request has claimed the exemption and accepted the terms
/// and the verification service has accepted the response. No user is made:
/// the store stays as it is.
pub proof fn lemma_registration_of_unknown_address(world: World, store: Store, reg: Reg)
    requires
        accepted(world),
        reg.not_resident,
        reg.terms,
        !store.has_user(reg.address@),
    ensures
        serve(world, store, Request::Register(reg)) == (
            store,
            Outcome::Failed(ApiError::UserNotFound),
        ),
{
    reveal_with_fuel(run, 4);
}

/// What a lookup of a user comes to, once the verification service has
/// accepted the response: "terms not accepted" where the user has not signed
/// the terms, whether exempt or not; else "user is resident" where the user
/// is not exempt; else the user.
pub proof fn lemma_lookup_of_user(world: World, store: Store, get: Get, at: int)
    requires
        accepted(world),
        store.wf(),
        0 <= at < store.users.len(),
        store.users[at].address@ == get.address@,
    ensures
        serve(world, store, Request::Get(get)).0 == store,
        !store.users[at].terms_signed ==> serve(world, store, Request::Get(get)).1
            == Outcome::Failed(ApiError::TermsNotAccepted),
        store.users[at].terms_signed && !store.users[at].not_resident ==> serve(
            world,
            store,
            Request::Get(get),
        ).1 == Outcome::Failed(ApiError::UserIsResident),
        store.users[at].terms_signed && store.users[at].not_resident ==> serve(
            world,
            store,
            Request::Get(get),
        ).1 == Outcome::Found(store.users[at]),
{
    reveal_with_fuel(run, 4);
    assert(store.has_user(get.address@));
    assert(store.user_at(get.address@) == store.users[at]);
}

/// What a registration of a user comes to, once the request has claimed the
/// exemption and accepted the terms and the verification service has
/// accepted the response: the user's two flags are written, every other
/// record stays, and the answer shows the user as it was before.
pub proof fn lemma_registration_of_user(world: World, store: Store, reg: Reg, at: int)
    requires
        accepted(world),
        reg.not_resident,
        reg.terms,
        store.wf(),
        0 <= at < store.users.len(),
        store.users[at].address@ == reg.address@,
    ensures
        serve(world, store, Request::Register(reg)).1 == Outcome::Registered(store.users[at]),
        serve(world, store, Request::Register(reg)).0.users == store.users.update(
            at,
            Store::written(store.users[at], store.users[at].id, reg.not_resident, reg.terms),
        ),
        serve(world, store, Request::Register(reg)).0.tokens == store.tokens,
        serve(world, store, Request::Register(reg)).0.logs == store.logs,
{
    reveal_with_fuel(run, 4);
    let user = store.users[at];
    assert(store.has_user(reg.address@));
    assert(store.user_at(reg.address@) == user);
    assert(store.has_id(user.id));
    let after = store.update_user(user.id, reg.not_resident, reg.terms).0;
    assert(after.users =~= store.users.update(
        at,
        Store::written(user, user.id, reg.not_resident, reg.terms),
    ));
}

/// Whether a user is the same but for the two flags.
pub open spec fn same_user(before: User, after: User) -> bool {
    before.id == after.id && before.address == after.address && before.amount == after.amount
}

/// Whether the records of `after` are those of `before` and, behind them,
/// new tokens and log entries: no user is made or deleted and none changes
/// but in its flags; no token and no log entry is changed or deleted.
pub open spec fn keeps(before: Store, after: Store) -> bool {
    &&& after.users.len() == before.users.len()
    &&& forall|i: int|
        0 <= i < before.users.len() ==> same_user(before.users[i], #[trigger] after.users[i])
    &&& before.tokens.is_prefix_of(after.tokens)
    &&& before.logs.is_prefix_of(after.logs)
}

/// Whatever is asked and whatever the verification service says, the store
/// keeps what it has, and stays well-formed.
pub proof fn lemma_serve_keeps_records(world: World, store: Store, request: Request)
    ensures
        keeps(store, serve(world, store, request).0),
        store.wf() ==> serve(world, store, request).0.wf(),
{
    reveal_with_fuel(run, 4);
    let after = serve(world, store, request).0;
    match request {
        Request::Register(reg) => {
            if after != store {
                let event = store.find_user(reg.address@);
                let user = event->UserFound_0;
                assert(after == store.update_user(user.id, reg.not_resident, reg.terms).0);
            }
        },
        Request::CreateToken { token, headers } => {
            if store.wf() && !store.has_token(token.token@) {
                let stored = store.insert_token(token).0;
                assert forall|i: int, j: int| 0 <= i < j < stored.tokens.len() implies (
                #[trigger] stored.tokens[i]).token@ != (#[trigger] stored.tokens[j]).token@ by {
                    if j == store.tokens.len() {
                        assert(store.tokens[i].token@ != token.token@);
                    }
                }
            }
        },
        _ => {},
    }
}

/// A registration makes no user, whatever it asks and whatever comes of it:
/// the store has the users it had, each with its id, address and amount, and
/// the tokens and the log that it had.
pub proof fn lemma_registration_creates_no_user(world: World, store: Store, reg: Reg)
    ensures
        keeps(store, serve(world, store, Request::Register(reg)).0),
        serve(world, store, Request::Register(reg)).0.tokens == store.tokens,
        serve(world, store, Request::Register(reg)).0.logs == store.logs,
        !(serve(world, store, Request::Register(reg)).1 is Found),
{
    reveal_with_fuel(run, 4);
    lemma_serve_keeps_records(world, store, Request::Register(reg));
}

/// A verdict decides whether a lookup and a registration reach the store.
/// Where the verification service accepts the response, the next effect is
/// the read of the user at the address of the request. Where it does not, the
/// request ends at once, the store untouched, with a failure that carries
/// exactly the reasons of the answer, unknown ones as they came; callers are
/// told their words in their order.
pub proof fn lemma_verdict_decides(
    world: World,
    store: Store,
    answer: RecaptchaResponse,
    verdict: Result<(), ApiError>,
    get: Get,
    reg: Reg,
)
    requires
        answer.means(verdict),
        world.verdict == Some(verdict),
        reg.not_resident,
        reg.terms,
    ensures
        answer.success ==> Session::spec_begin(Request::Get(get)).0.spec_step(
            Event::Verdict(verdict),
        ).1 == (Effect::FindUser { address: get.address }),
        answer.success ==> Session::spec_begin(Request::Register(reg)).0.spec_step(
            Event::Verdict(verdict),
        ).1 == (Effect::FindUser { address: reg.address }),
        !answer.success ==> {
            &&& verdict matches Err(error)
            &&& error@ == ApiErrorView::RecaptchaErr(answer.reasons())
            &&& serve(world, store, Request::Get(get)) == (store, Outcome::Failed(error))
            &&& serve(world, store, Request::Register(reg)) == (store, Outcome::Failed(error))
            &&& Outcome::Failed(error).body() == BodyView::User(
                ApiErrorView::RecaptchaErr(answer.reasons()).to_resp(),
            )
        },
{
    reveal_with_fuel(run, 4);
}

/// A log entry under a token whose time is over is refused, whoever read the
/// token and however: nothing is appended.
pub proof fn lemma_expired_token_is_refused(log: Log, token: Token, now: i64)
    requires
        token.expired_at <= now,
    ensures
        (Session::LogChecking { log }).spec_step(Event::TokenFound { token, now }) == finish(
            Outcome::InvalidToken,
        ),
{
}

/// A log entry under a token that the store does not have, or has with a
/// time that is over, is refused, and the store stays as it is.
pub proof fn lemma_log_needs_valid_token(world: World, store: Store, log: Log)
    requires
        forall|i: int|
            0 <= i < store.tokens.len() && (#[trigger] store.tokens[i]).token@ == log.token@
                ==> store.tokens[i].expired_at <= world.now,
    ensures
        serve(world, store, Request::Log(log)) == (store, Outcome::InvalidToken),
{
    reveal_with_fuel(run, 4);
}

/// A log entry under a token that is still good is appended as it came: the
/// last entry of the log has the token, the action and the payload of the
/// request, and every other record stays.
pub proof fn lemma_log_keeps_payload(world: World, store: Store, log: Log, at: int)
    requires
        store.wf(),
        0 <= at < store.tokens.len(),
        store.tokens[at].token@ == log.token@,
        store.tokens[at].expired_at > world.now,
    ensures
        serve(world, store, Request::Log(log)).1 == Outcome::Logged,
        serve(world, store, Request::Log(log)).0.logs == store.logs.push(
            LogEntry { token: log.token, action: Action::Named(log.action), payload: log.payload },
        ),
        serve(world, store, Request::Log(log)).0.logs.last().payload@ == log.payload@,
        serve(world, store, Request::Log(log)).0.users == store.users,
        serve(world, store, Request::Log(log)).0.tokens == store.tokens,
{
    reveal_with_fuel(run, 4);
    assert(store.has_token(log.token@));
    assert(store.token_at(log.token@) == store.tokens[at]);
}

/// A token that the store does not have yet is recorded, and the log tells
/// of it under that same token, with the headers of the request. A token
/// that the store has already is not recorded again.
pub proof fn lemma_token_is_recorded(
    world: World,
    store: Store,
    token: Token,
    headers: PayloadWrapper,
)
    ensures
        !store.has_token(token.token@) ==> {
            &&& serve(world, store, Request::CreateToken { token, headers }).1
                == Outcome::TokenIssued(token.token)
            &&& serve(world, store, Request::CreateToken { token, headers }).0.tokens
                == store.tokens.push(token)
            &&& serve(world, store, Request::CreateToken { token, headers }).0.logs
                == store.logs.push(
                LogEntry { token: token.token, action: Action::CreateNewToken, payload: headers },
            )
        },
        store.has_token(token.token@) ==> serve(
            world,
            store,
            Request::CreateToken { token, headers },
        ) == (store, Outcome::Internal),
{
    reveal_with_fuel(run, 4);
}

/// A user who has registered is found: after a registration that was made,
/// a lookup of the same address shows the user, with both flags set.
pub proof fn lemma_registered_user_is_found(
    world: World,
    store: Store,
    reg: Reg,
    get: Get,
    at: int,
)
    requires
        accepted(world),
        reg.not_resident,
        reg.terms,
        store.wf(),
        0 <= at < store.users.len(),
        store.users[at].address@ == reg.address@,
        get.address@ == reg.address@,
    ensures
        serve(world, serve(world, store, Request::Register(reg)).0, Request::Get(get)).1
            == Outcome::Found(Store::written(store.users[at], store.users[at].id, true, true)),
{
    let after = serve(world, store, Request::Register(reg)).0;
    lemma_registration_of_user(world, store, reg, at);
    lemma_serve_keeps_records(world, store, Request::Register(reg));
    lemma_lookup_of_user(world, after, get, at);
}

/// A token that was just recorded is good for log entries until its end:
/// an entry under it, at a time before its end, is appended.
pub proof fn lemma_recorded_token_is_good(
    world: World,
    store: Store,
    token: Token,
    headers: PayloadWrapper,
    log: Log,
)
    requires
        store.wf(),
        !store.has_token(token.token@),
        log.token@ == token.token@,
        world.now < token.expired_at,
    ensures
        serve(
            world,
            serve(world, store, Request::CreateToken { token, headers }).0,
            Request::Log(log),
        ).1 == Outcome::Logged,
{
    let request = Request::CreateToken { token, headers };
    let after = serve(world, store, request).0;
    lemma_token_is_recorded(world, store, token, headers);
    lemma_serve_keeps_records(world, store, request);
    assert(after.tokens[store.tokens.len() as int] == token);
    lemma_log_keeps_payload(world, after, log, store.tokens.len() as int);
}

/// No request asks for more than [`most_effects`] effects: a session that
/// is run so far has ended by itself.
pub proof fn lemma_serve_ends(world: World, store: Store, request: Request)
    ensures
        serve(world, store, request) == run(
            world,
            store,
            Session::spec_begin(request).0,
            Session::spec_begin(request).1,
            most_effects() + 1,
        ),
{
    reveal_with_fuel(run, 5);
}

} // verus!
