//! What callers send and what they are answered.

use vstd::prelude::*;
use vstd::std_specs::convert::FromSpecImpl;
use vstd::string::*;

use crate::db::models::PayloadWrapper;
use crate::db::models::User as DbUser;
use crate::recaptcha::{CodeSet, CodeView};

verus! {

/// The code of an error as callers see it.
pub type ErrorCode = u16;

/// The code for: no user has this address.
pub const USER_NOT_FOUND: ErrorCode = 404;

/// The code for: the user may not be a resident.
pub const USER_IS_RESIDENT: ErrorCode = 901;

/// The code for: the user has not accepted the terms.
pub const TERMS_NOT_ACCEPTED: ErrorCode = 902;

/// The code for: the verification service refused the response.
pub const VERIFICATION_FAILED: ErrorCode = 906;

/// A request to register: to record for the user at an address whether the
/// user is exempt from the residency restriction and has accepted the terms.
#[derive(Debug)]
pub struct Reg {
    pub not_resident: bool,
    /// Terms & Conditions - accepted
    pub terms: bool,
    /// Ethereum address
    pub address: String,
    pub recaptcha: String,
}

/// A request to look up the user at an address.
#[derive(Debug)]
pub struct Get {
    /// Ethereum address
    pub address: String,
    pub recaptcha: String,
}

/// A request to append to the audit log under a token.
#[derive(Debug)]
pub struct Log {
    pub token: String,
    pub action: String,
    pub payload: PayloadWrapper,
}

/// The answer to a lookup or a registration: the user, or the error.
#[derive(Debug)]
pub struct Resp {
    pub error: Option<Error>,
    pub user: Option<User>,
}

/// A user as callers see it.
#[derive(Debug)]
pub struct User {
    /// Ethereum address
    pub address: String,
    /// Amount of AKT tokens
    pub amount: i64,
}

/// An error as callers see it.
#[derive(Debug)]
pub struct Error {
    pub code: ErrorCode,
    pub message: String,
}

/// The answer to a request for a token.
#[derive(Debug)]
pub struct Token {
    pub status: String,
    pub token: String,
}

/// The answer to a log entry that was taken.
#[derive(Debug)]
pub struct StatusOk {
    pub status: String,
}

/// The answer to a log entry that was refused.
#[derive(Debug)]
pub struct StatusError {
    pub status: String,
    pub reason: String,
}

/// Why a lookup or a registration fails.
#[derive(Debug)]
pub enum ApiError {
    UserNotFound,
    UserIsResident,
    TermsNotAccepted,
    RecaptchaErr(CodeSet),
}

impl Clone for Reg {
    fn clone(&self) -> (copy: Reg)
        ensures
            copy == *self,
    {
        Reg {
            not_resident: self.not_resident,
            terms: self.terms,
            address: self.address.clone(),
            recaptcha: self.recaptcha.clone(),
        }
    }
}

impl Clone for Get {
    fn clone(&self) -> (copy: Get)
        ensures
            copy == *self,
    {
        Get { address: self.address.clone(), recaptcha: self.recaptcha.clone() }
    }
}

impl Clone for User {
    fn clone(&self) -> (copy: User)
        ensures
            copy == *self,
    {
        User { address: self.address.clone(), amount: self.amount }
    }
}

impl Clone for Error {
    fn clone(&self) -> (copy: Error)
        ensures
            copy == *self,
    {
        Error { code: self.code, message: self.message.clone() }
    }
}

impl Clone for Resp {
    fn clone(&self) -> (copy: Resp)
        ensures
            copy == *self,
    {
        Resp {
            error: match &self.error {
                Some(error) => Some(error.clone()),
                None => None,
            },
            user: match &self.user {
                Some(user) => Some(user.clone()),
                None => None,
            },
        }
    }
}

impl Clone for Token {
    fn clone(&self) -> (copy: Token)
        ensures
            copy == *self,
    {
        Token { status: self.status.clone(), token: self.token.clone() }
    }
}

impl Clone for StatusOk {
    fn clone(&self) -> (copy: StatusOk)
        ensures
            copy == *self,
    {
        StatusOk { status: self.status.clone() }
    }
}

impl Clone for StatusError {
    fn clone(&self) -> (copy: StatusError)
        ensures
            copy == *self,
    {
        StatusError { status: self.status.clone(), reason: self.reason.clone() }
    }
}

/// A [`User`] with its address as a sequence of characters.
pub ghost struct UserView {
    pub address: Seq<char>,
    pub amount: i64,
}

/// An [`Error`] with its message as a sequence of characters.
pub ghost struct ErrorView {
    pub code: ErrorCode,
    pub message: Seq<char>,
}

/// A [`Resp`] by the views of its parts.
pub ghost struct RespView {
    pub error: Option<ErrorView>,
    pub user: Option<UserView>,
}

/// An [`ApiError`] with its codes as a sequence.
pub ghost enum ApiErrorView {
    UserNotFound,
    UserIsResident,
    TermsNotAccepted,
    RecaptchaErr(Seq<CodeView>),
}

impl View for User {
    type V = UserView;

    open spec fn view(&self) -> UserView {
        UserView { address: self.address@, amount: self.amount }
    }
}

impl View for Error {
    type V = ErrorView;

    open spec fn view(&self) -> ErrorView {
        ErrorView { code: self.code, message: self.message@ }
    }
}

impl View for Resp {
    type V = RespView;

    open spec fn view(&self) -> RespView {
        RespView {
            error: match self.error {
                Some(error) => Some(error@),
                None => None,
            },
            user: match self.user {
                Some(user) => Some(user@),
                None => None,
            },
        }
    }
}

impl View for ApiError {
    type V = ApiErrorView;

    open spec fn view(&self) -> ApiErrorView {
        match self {
            ApiError::UserNotFound => ApiErrorView::UserNotFound,
            ApiError::UserIsResident => ApiErrorView::UserIsResident,
            ApiError::TermsNotAccepted => ApiErrorView::TermsNotAccepted,
            ApiError::RecaptchaErr(codes) => ApiErrorView::RecaptchaErr(codes@),
        }
    }
}

/// The message that goes with an error code.
pub open spec fn message_of(code: ErrorCode) -> Seq<char> {
    if code == USER_NOT_FOUND {
        "User not found"@
    } else if code == USER_IS_RESIDENT {
        "User should not be resident"@
    } else if code == TERMS_NOT_ACCEPTED {
        "User have to accept Terms & Conditions"@
    } else {
        "Unknown Internal Error"@
    }
}

/// The words of the codes in their order, with one space between two words.
pub open spec fn joined(codes: Seq<CodeView>) -> Seq<char>
    decreases codes.len(),
{
    if codes.len() == 0 {
        Seq::empty()
    } else if codes.len() == 1 {
        codes[0].text()
    } else {
        joined(codes.drop_last()) + seq![' '] + codes.last().text()
    }
}

impl ErrorView {
    /// The error of a code, with the message that goes with the code.
    pub open spec fn of(code: ErrorCode) -> ErrorView {
        ErrorView { code, message: message_of(code) }
    }
}

impl ApiErrorView {
    /// The error as callers see it.
    pub open spec fn error(self) -> ErrorView {
        match self {
            ApiErrorView::UserNotFound => ErrorView::of(USER_NOT_FOUND),
            ApiErrorView::UserIsResident => ErrorView::of(USER_IS_RESIDENT),
            ApiErrorView::TermsNotAccepted => ErrorView::of(TERMS_NOT_ACCEPTED),
            ApiErrorView::RecaptchaErr(codes) => ErrorView {
                code: VERIFICATION_FAILED,
                message: joined(codes),
            },
        }
    }

    /// The answer that tells the error.
    pub open spec fn to_resp(self) -> RespView {
        RespView { error: Some(self.error()), user: None }
    }
}

impl Error {
    /// The error of a code, with the message that goes with the code.
    pub fn new(code: ErrorCode) -> (error: Error)
        ensures
            error@ == ErrorView::of(code),
    {
        let message = if code == USER_NOT_FOUND {
            "User not found".to_owned()
        } else if code == USER_IS_RESIDENT {
            "User should not be resident".to_owned()
        } else if code == TERMS_NOT_ACCEPTED {
            "User have to accept Terms & Conditions".to_owned()
        } else {
            "Unknown Internal Error".to_owned()
        };
        Error { code, message }
    }
}

impl ApiError {
    /// The answer that tells the error. A refusal by the verification service
    /// is told with the words of its reasons, in their order, one space
    /// between two.
    pub fn to_resp(self) -> (resp: Resp)
        ensures
            resp@ == self@.to_resp(),
    {
        match self {
            ApiError::UserNotFound => Resp::from(Error::new(USER_NOT_FOUND)),
            ApiError::UserIsResident => Resp::from(Error::new(USER_IS_RESIDENT)),
            ApiError::TermsNotAccepted => Resp::from(Error::new(TERMS_NOT_ACCEPTED)),
            ApiError::RecaptchaErr(codes) => {
                let mut message = String::new();
                let mut i: usize = 0;
                while i < codes.len()
                    invariant
                        i <= codes@.len(),
                        message@ == joined(codes@.take(i as int)),
                    decreases codes@.len() - i,
                {
                    let ghost before = codes@.take(i as int);
                    let ghost now = codes@.take(i + 1);
                    proof {
                        reveal_strlit(" ");
                        assert(now.drop_last() =~= before);
                        assert(now.last() == codes@[i as int]);
                        assert(" "@ =~= seq![' ']);
                    }
                    if i > 0 {
                        message.append(" ");
                    }
                    message.append(codes.get(i).as_str());
                    assert(message@ =~= joined(now));
                    i += 1;
                }
                assert(codes@.take(i as int) =~= codes@);
                Resp::from(Error { code: VERIFICATION_FAILED, message })
            },
        }
    }
}

impl From<Error> for Resp {
    fn from(error: Error) -> (resp: Resp) {
        Resp { error: Some(error), user: None }
    }
}

impl FromSpecImpl<Error> for Resp {
    open spec fn obeys_from_spec() -> bool {
        true
    }

    open spec fn from_spec(error: Error) -> Resp {
        Resp { error: Some(error), user: None }
    }
}

impl From<User> for Resp {
    fn from(user: User) -> (resp: Resp) {
        Resp { error: None, user: Some(user) }
    }
}

impl FromSpecImpl<User> for Resp {
    open spec fn obeys_from_spec() -> bool {
        true
    }

    open spec fn from_spec(user: User) -> Resp {
        Resp { error: None, user: Some(user) }
    }
}

impl From<DbUser> for Resp {
    fn from(user: DbUser) -> (resp: Resp) {
        Resp { error: None, user: Some(User::from(user)) }
    }
}

impl FromSpecImpl<DbUser> for Resp {
    open spec fn obeys_from_spec() -> bool {
        true
    }

    open spec fn from_spec(user: DbUser) -> Resp {
        Resp { error: None, user: Some(User { address: user.address, amount: user.amount }) }
    }
}

impl From<DbUser> for User {
    fn from(user: DbUser) -> (shown: User) {
        User { address: user.address, amount: user.amount }
    }
}

impl FromSpecImpl<DbUser> for User {
    open spec fn obeys_from_spec() -> bool {
        true
    }

    open spec fn from_spec(user: DbUser) -> User {
        User { address: user.address, amount: user.amount }
    }
}

} // verus!
