//! The error taxonomy that crosses the service boundary, and the HTTP
//! status each kind is reported with.

use crate::text::{chars_of, contains_chars, is_substring, lowercase, texts, to_lowercase};
use vstd::prelude::*;

verus! {

/// What went wrong, at the level a client may learn.
#[derive(Clone, Copy, Debug, PartialEq, Eq, Structural)]
pub enum ErrorKind {
    /// Wrong username or password; says nothing about which.
    InvalidCredentials,
    /// Too many failed logins; `retry_after` is the number of seconds left.
    AccountLocked { retry_after: i64 },
    /// An access, refresh or one-time token that is expired, garbled or used.
    InvalidOrExpiredToken,
    /// A guest asked for something that needs a login.
    Unauthenticated,
    /// A logged-in caller lacks the permission.
    Forbidden,
    /// Duplicate username or e-mail address.
    Conflict,
    /// The resource does not exist.
    NotFound,
    /// Weak password, mismatched confirmation, malformed input.
    ValidationError,
    /// Configuration or store fault.
    InternalError,
}

/// An error as handed to the HTTP layer: a kind and a message.
#[derive(Clone, Debug)]
pub struct ApiError {
    pub kind: ErrorKind,
    pub message: String,
}

/// The HTTP status a kind is reported with.
pub open spec fn status_of(kind: ErrorKind) -> u16 {
    match kind {
        ErrorKind::InvalidCredentials => 401,
        ErrorKind::AccountLocked { .. } => 423,
        ErrorKind::InvalidOrExpiredToken => 401,
        ErrorKind::Unauthenticated => 401,
        ErrorKind::Forbidden => 403,
        ErrorKind::Conflict => 409,
        ErrorKind::NotFound => 404,
        ErrorKind::ValidationError => 400,
        ErrorKind::InternalError => 500,
    }
}

/// Whether the client sees a fixed text in place of the error's own message.
pub open spec fn hides_message(kind: ErrorKind) -> bool {
    kind is InvalidOrExpiredToken || kind is InternalError
}

/// The text a client sees for an error of the given kind and message.
pub open spec fn client_text(kind: ErrorKind, message: Seq<char>) -> Seq<char> {
    match kind {
        ErrorKind::InvalidOrExpiredToken => "认证失败或Token无效"@,
        ErrorKind::InternalError => "内部服务器错误,请稍候再试"@,
        _ => message,
    }
}

impl ApiError {
    /// An error of the given kind with the given message.
    pub fn new(kind: ErrorKind, message: &str) -> (e: ApiError)
        ensures
            e.kind == kind,
            e.message@ == message@,
    {
        ApiError { kind, message: message.to_owned() }
    }

    /// The kind of this error.
    pub fn kind(&self) -> (k: ErrorKind)
        ensures
            k == self.kind,
    {
        self.kind
    }

    /// The HTTP status this error is reported with.
    pub fn status_code(&self) -> (code: u16)
        ensures
            code == status_of(self.kind),
    {
        match self.kind {
            ErrorKind::InvalidCredentials => 401,
            ErrorKind::AccountLocked { .. } => 423,
            ErrorKind::InvalidOrExpiredToken => 401,
            ErrorKind::Unauthenticated => 401,
            ErrorKind::Forbidden => 403,
            ErrorKind::Conflict => 409,
            ErrorKind::NotFound => 404,
            ErrorKind::ValidationError => 400,
            ErrorKind::InternalError => 500,
        }
    }

    /// Status and body text of the response for this error. Token failures
    /// and internal faults are reported with a fixed text, so that nothing of
    /// the cause reaches the client.
    pub fn into_response(self) -> (parts: (u16, String))
        ensures
            parts.0 == status_of(self.kind),
            parts.1@ == client_text(self.kind, self.message@),
    {
        let code = self.status_code();
        match self.kind {
            ErrorKind::InvalidOrExpiredToken => (code, "认证失败或Token无效".to_owned()),
            ErrorKind::InternalError => (code, "内部服务器错误,请稍候再试".to_owned()),
            _ => (code, self.message),
        }
    }

    /// The message of this error.
    pub fn to_string(&self) -> (s: String)
        ensures
            s@ == self.message@,
    {
        self.message.clone()
    }
}

/// Whether some message of a chain of error messages holds a keyword,
/// case set aside. Keywords are written in lower case.
pub open spec fn chain_mentions(chain: Seq<Seq<char>>, keyword: Seq<char>) -> bool {
    exists|i: int| 0 <= i < chain.len() && is_substring(lowercase(#[trigger] chain[i]), keyword)
}

/// Whether some message of a chain of error messages holds a keyword.
pub fn error_chain_contains(chain: &Vec<String>, keyword: &str) -> (r: bool)
    ensures
        r == chain_mentions(texts(chain@), keyword@),
{
    let needle = chars_of(keyword);
    let mut i: usize = 0;
    while i < chain.len()
        invariant
            i <= chain.len(),
            needle@ == keyword@,
            forall|j: int|
                0 <= j < i ==> !is_substring(lowercase(#[trigger] texts(chain@)[j]), keyword@),
        decreases chain.len() - i,
    {
        let lower = to_lowercase(chain[i].as_str());
        let hay = chars_of(lower.as_str());
        if contains_chars(&hay, &needle) {
            assert(is_substring(lowercase(texts(chain@)[i as int]), keyword@));
            return true;
        }
        i = i + 1;
    }
    false
}

/// Whether a chain of messages speaks of a token that is not accepted.
pub open spec fn speaks_of_token(chain: Seq<Seq<char>>) -> bool {
    chain_mentions(chain, "bearer token"@) || chain_mentions(chain, "无效或过期的 token"@)
        || chain_mentions(chain, "无效的 refresh token"@)
}

/// Whether a chain of messages speaks of a permission that is lacking.
pub open spec fn speaks_of_permission(chain: Seq<Seq<char>>) -> bool {
    chain_mentions(chain, "权限"@) || chain_mentions(chain, "permission"@) || chain_mentions(
        chain,
        "只能"@,
    )
}

/// Whether a chain of messages speaks of something that exists already.
pub open spec fn speaks_of_conflict(chain: Seq<Seq<char>>) -> bool {
    chain_mentions(chain, "已存在"@) || chain_mentions(chain, "已被占用"@) || chain_mentions(
        chain,
        "已被注册"@,
    )
}

/// Whether a chain of messages speaks of something that was not found.
pub open spec fn speaks_of_absence(chain: Seq<Seq<char>>) -> bool {
    chain_mentions(chain, "未找到"@) || chain_mentions(chain, "not found"@)
}

/// Whether a chain of messages speaks of input that is not valid.
pub open spec fn speaks_of_invalid_input(chain: Seq<Seq<char>>) -> bool {
    chain_mentions(chain, "无效"@) || chain_mentions(chain, "格式"@) || chain_mentions(
        chain,
        "不匹配"@,
    )
}

/// The kind of an error that is known by its messages only, as the errors
/// of the content layer and of a store are. The tests are made in this
/// order: token, permission, conflict (a broken uniqueness rule of the
/// store counts as one), absence, invalid input; anything else is an
/// internal error.
pub open spec fn kind_of_chain(chain: Seq<Seq<char>>, unique_violation: bool) -> ErrorKind {
    if speaks_of_token(chain) {
        ErrorKind::InvalidOrExpiredToken
    } else if speaks_of_permission(chain) {
        ErrorKind::Forbidden
    } else if unique_violation || speaks_of_conflict(chain) {
        ErrorKind::Conflict
    } else if speaks_of_absence(chain) {
        ErrorKind::NotFound
    } else if speaks_of_invalid_input(chain) {
        ErrorKind::ValidationError
    } else {
        ErrorKind::InternalError
    }
}

/// The message of such an error: a fixed text for a broken uniqueness
/// rule, else the first message of the chain.
pub open spec fn message_of_chain(chain: Seq<Seq<char>>, unique_violation: bool) -> Seq<char> {
    if !speaks_of_token(chain) && !speaks_of_permission(chain) && unique_violation {
        "记录已存在或与现有数据冲突"@
    } else if chain.len() > 0 {
        chain[0]
    } else {
        Seq::empty()
    }
}

impl ApiError {
    /// The error for a chain of messages, outermost first.
    pub fn from_chain(chain: &Vec<String>, unique_violation: bool) -> (e: ApiError)
        ensures
            e.kind == kind_of_chain(texts(chain@), unique_violation),
            e.message@ == message_of_chain(texts(chain@), unique_violation),
    {
        let first = if chain.len() > 0 {
            assert(texts(chain@)[0] == chain@[0]@);
            chain[0].clone()
        } else {
            String::new()
        };
        if error_chain_contains(chain, "bearer token") || error_chain_contains(
            chain,
            "无效或过期的 token",
        ) || error_chain_contains(chain, "无效的 refresh token") {
            ApiError { kind: ErrorKind::InvalidOrExpiredToken, message: first }
        } else if error_chain_contains(chain, "权限") || error_chain_contains(chain, "permission")
            || error_chain_contains(chain, "只能") {
            ApiError { kind: ErrorKind::Forbidden, message: first }
        } else if unique_violation {
            ApiError::new(ErrorKind::Conflict, "记录已存在或与现有数据冲突")
        } else if error_chain_contains(chain, "已存在") || error_chain_contains(chain, "已被占用")
            || error_chain_contains(chain, "已被注册") {
            ApiError { kind: ErrorKind::Conflict, message: first }
        } else if error_chain_contains(chain, "未找到") || error_chain_contains(chain, "not found") {
            ApiError { kind: ErrorKind::NotFound, message: first }
        } else if error_chain_contains(chain, "无效") || error_chain_contains(chain, "格式")
            || error_chain_contains(chain, "不匹配") {
            ApiError { kind: ErrorKind::ValidationError, message: first }
        } else {
            ApiError { kind: ErrorKind::InternalError, message: first }
        }
    }
}

} // verus!
