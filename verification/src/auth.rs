//! Authentication of a client by its session: the decisions, and the check
//! of the session hash. The queries that lie between the decisions are the
//! caller's.

use hmac::{Hmac, Mac};
use sha2::{Digest, Sha256};
use vstd::prelude::*;
use vstd::string::*;
use vstd::utf8::encode_utf8;

use crate::text::str_chars;
use crate::types::{RealmId, UserId};

verus! {

/// Who a request was made by.
#[derive(Clone, Copy, Debug, PartialEq, Eq, Structural)]
pub struct AuthContext {
    pub user_id: UserId,
    pub realm_id: RealmId,
}

/// What is read of a session once its signature is checked.
#[derive(Debug)]
pub struct SessionFields {
    /// The id of the user, in decimal.
    pub auth_user_id: String,
    /// The session hash, in hexadecimal.
    pub auth_user_hash: String,
}

/// What is read of the user's row.
#[derive(Debug)]
pub struct UserRow {
    /// The user's password digest.
    pub password: String,
    pub realm_id: RealmId,
}

/// Why an authentication failed, as opposed to being refused.
#[derive(Clone, Copy, Debug, PartialEq, Eq, Structural)]
pub enum AuthError {
    /// The session names no user id.
    BadUserId,
    /// The session hash is not written in hexadecimal.
    BadHash,
    /// The key derived from the secret cannot key the hash.
    BadKey,
    /// An answer came that was not asked for.
    OutOfOrder,
}

/// The salt with which the key of the session hash is derived.
pub const SESSION_HASH_SALT: &'static str =
    "django.contrib.auth.models.AbstractBaseUser.get_session_auth_hash";

/// The salt with which sessions are signed.
pub const SESSION_SALT: &'static str = "django.contrib.sessions.SessionStore";

/// The name of the cookie that holds the session id.
pub const SESSION_COOKIE: &'static str = "sessionid";

/// The SHA-256 digest of a byte string.
pub uninterp spec fn sha256_digest(data: Seq<u8>) -> Seq<u8>;

/// Calls `Sha256::digest`. Trusted: the result is the SHA-256 digest of
/// `data`, which depends on the bytes of `data` alone.
#[verifier::external_body]
fn sha256(data: &[u8]) -> (r: Vec<u8>)
    ensures
        r@ == sha256_digest(data@),
{
    Sha256::digest(data).to_vec()
}

/// The HMAC-SHA256 tag of `data` under `key`; `None` for a key that
/// cannot be used.
pub uninterp spec fn hmac_sha256_tag(key: Seq<u8>, data: Seq<u8>) -> Option<Seq<u8>>;

/// Calls `Hmac::<Sha256>::new_from_slice`, then `update` and `finalize`.
/// Trusted: the result is the tag of `data` under `key`, which depends on
/// the two byte strings alone, and is `None` exactly where the key is
/// refused.
#[verifier::external_body]
fn hmac_sha256(key: &[u8], data: &[u8]) -> (r: Option<Vec<u8>>)
    ensures
        match r {
            Some(tag) => hmac_sha256_tag(key@, data@) == Some(tag@),
            None => hmac_sha256_tag(key@, data@) is None,
        },
{
    match Hmac::<Sha256>::new_from_slice(key) {
        Ok(mut mac) => {
            mac.update(data);
            Some(mac.finalize().into_bytes().to_vec())
        },
        Err(_) => None,
    }
}

/// The value of a hexadecimal digit, in either case.
pub open spec fn hex_digit_value(b: u8) -> Option<int> {
    if 48 <= b <= 57 {
        Some(b - 48)
    } else if 65 <= b <= 70 {
        Some(b - 55)
    } else if 97 <= b <= 102 {
        Some(b - 87)
    } else {
        None
    }
}

/// The bytes that a hexadecimal text stands for, two digits for each;
/// `None` for a text of odd length or with another character.
pub open spec fn hex_decoded(text: Seq<u8>) -> Option<Seq<u8>> {
    if text.len() % 2 != 0 || exists|i: int|
        0 <= i < text.len() && hex_digit_value(#[trigger] text[i]) is None {
        None
    } else {
        Some(
            Seq::new(
                text.len() / 2,
                |i: int|
                    (hex_digit_value(text[2 * i])->0 * 16 + hex_digit_value(
                        text[2 * i + 1],
                    )->0) as u8,
            ),
        )
    }
}

/// Calls `hex::decode`. Trusted: the result holds the bytes that the text
/// stands for, and there is none exactly where the text has an odd length
/// or a character that is no hexadecimal digit.
#[verifier::external_body]
fn hex_decode(text: &[u8]) -> (r: Option<Vec<u8>>)
    ensures
        match r {
            Some(bytes) => hex_decoded(text@) == Some(bytes@),
            None => hex_decoded(text@) is None,
        },
{
    match hex::decode(text) {
        Ok(bytes) => Some(bytes),
        Err(_) => None,
    }
}

/// What is assumed of `constant_time_eq::constant_time_eq`: it says whether
/// the two byte strings are equal. That it takes a time that depends on
/// their lengths alone is its own promise, and no part of this contract.
pub assume_specification[ constant_time_eq::constant_time_eq ](a: &[u8], b: &[u8]) -> (r: bool)
    ensures
        r == (a@ == b@),
;

/// The key of the session hash: the SHA-256 digest of the salt followed by
/// the secret key.
pub open spec fn session_hash_key(secret_key: Seq<char>) -> Seq<u8> {
    sha256_digest(encode_utf8(SESSION_HASH_SALT@) + encode_utf8(secret_key))
}

/// Whether a session hash is the one that the user's password digest
/// gives: the HMAC-SHA256 tag of the digest under the derived key.
pub open spec fn session_hash_holds(
    secret_key: Seq<char>,
    password: Seq<char>,
    auth_user_hash: Seq<char>,
) -> Result<bool, AuthError> {
    match hmac_sha256_tag(session_hash_key(secret_key), encode_utf8(password)) {
        None => Err(AuthError::BadKey),
        Some(tag) => match hex_decoded(encode_utf8(auth_user_hash)) {
            None => Err(AuthError::BadHash),
            Some(claimed) => Ok(claimed == tag),
        },
    }
}

/// What follows the outside computations of the check of a session hash:
/// a key that was refused and a hash that is no hexadecimal text are
/// errors, in this order; otherwise the answer is whether the claimed
/// hash is the tag.
pub fn judge_session_hash(tag: Option<Vec<u8>>, claimed: Option<Vec<u8>>) -> (r: Result<
    bool,
    AuthError,
>)
    ensures
        r == match tag {
            None => Err::<bool, AuthError>(AuthError::BadKey),
            Some(tag) => match claimed {
                None => Err(AuthError::BadHash),
                Some(claimed) => Ok(claimed@ == tag@),
            },
        },
{
    match tag {
        None => Err(AuthError::BadKey),
        Some(tag) => match claimed {
            None => Err(AuthError::BadHash),
            Some(claimed) => Ok(constant_time_eq::constant_time_eq(claimed.as_slice(), tag.as_slice())),
        },
    }
}

/// Checks the hash of a session against the user's password digest.
pub fn verify_session_hash(secret_key: &str, password: &str, auth_user_hash: &str) -> (r: Result<
    bool,
    AuthError,
>)
    ensures
        r == session_hash_holds(secret_key@, password@, auth_user_hash@),
{
    let mut salted: Vec<u8> = Vec::new();
    salted.extend_from_slice(SESSION_HASH_SALT.as_bytes());
    salted.extend_from_slice(secret_key.as_bytes());
    assert(salted@ =~= encode_utf8(SESSION_HASH_SALT@) + encode_utf8(secret_key@));
    let key = sha256(salted.as_slice());
    let tag = hmac_sha256(key.as_slice(), password.as_bytes());
    let claimed = hex_decode(auth_user_hash.as_bytes());
    judge_session_hash(tag, claimed)
}

/// The value of a decimal digit.
pub open spec fn digit_value(c: char) -> Option<int> {
    if c == '0' {
        Some(0)
    } else if c == '1' {
        Some(1)
    } else if c == '2' {
        Some(2)
    } else if c == '3' {
        Some(3)
    } else if c == '4' {
        Some(4)
    } else if c == '5' {
        Some(5)
    } else if c == '6' {
        Some(6)
    } else if c == '7' {
        Some(7)
    } else if c == '8' {
        Some(8)
    } else if c == '9' {
        Some(9)
    } else {
        None
    }
}

fn digit_of(c: char) -> (r: Option<i64>)
    ensures
        match r {
            Some(digit) => digit_value(c) == Some(digit as int),
            None => digit_value(c) is None,
        },
{
    match c {
        '0' => Some(0),
        '1' => Some(1),
        '2' => Some(2),
        '3' => Some(3),
        '4' => Some(4),
        '5' => Some(5),
        '6' => Some(6),
        '7' => Some(7),
        '8' => Some(8),
        '9' => Some(9),
        _ => None,
    }
}

/// The number that a run of decimal digits stands for; `None` where a
/// character is no digit. The empty run stands for zero.
pub open spec fn digits_value(digits: Seq<char>) -> Option<int>
    decreases digits.len(),
{
    if digits.len() == 0 {
        Some(0)
    } else {
        match (digits_value(digits.drop_last()), digit_value(digits.last())) {
            (Some(value), Some(digit)) => Some(10 * value + digit),
            _ => None,
        }
    }
}

/// The user id that a text stands for: an optional sign and then decimal
/// digits, at least one, for a number that fits in 32 bits.
pub open spec fn user_id_of(text: Seq<char>) -> Option<UserId> {
    let signed = text.len() > 0 && (text[0] == '-' || text[0] == '+');
    let digits = if signed {
        text.drop_first()
    } else {
        text
    };
    if digits.len() == 0 {
        None
    } else {
        match digits_value(digits) {
            None => None,
            Some(value) => {
                let number = if signed && text[0] == '-' {
                    -value
                } else {
                    value
                };
                if i32::MIN <= number <= i32::MAX {
                    Some(number as i32)
                } else {
                    None
                }
            },
        }
    }
}

/// Reads a user id written in decimal.
pub fn parse_user_id(text: &str) -> (r: Option<UserId>)
    ensures
        r == user_id_of(text@),
{
    let chars = str_chars(text);
    if chars.len() == 0 {
        return None;
    }
    let negative = chars[0] == '-';
    let signed = negative || chars[0] == '+';
    let first: usize = if signed {
        1
    } else {
        0
    };
    if chars.len() == first {
        return None;
    }
    let ghost digits = if signed {
        text@.drop_first()
    } else {
        text@
    };
    let mut value: i64 = 0;
    let mut too_large = false;
    let mut not_a_number = false;
    let mut i: usize = first;
    assert(digits.take(0) =~= Seq::<char>::empty());
    while i < chars.len()
        invariant
            first <= i <= chars.len(),
            chars@ == text@,
            first == (if signed {
                1usize
            } else {
                0usize
            }),
            digits == (if signed {
                text@.drop_first()
            } else {
                text@
            }),
            0 <= value <= 0x8000_0000,
            not_a_number <==> digits_value(digits.take(i - first)) is None,
            !not_a_number && too_large ==> digits_value(digits.take(i - first))->0 > 0x8000_0000,
            !not_a_number && !too_large ==> digits_value(digits.take(i - first)) == Some(
                value as int,
            ),
        decreases chars.len() - i,
    {
        let c = chars[i];
        let ghost shorter = digits.take(i - first);
        let ghost longer = digits.take(i - first + 1);
        proof {
            assert(digits[i - first] == chars@[i as int]);
            assert(longer.drop_last() =~= shorter);
            assert(longer.last() == c);
            assert(digits_value(longer) == match (digits_value(shorter), digit_value(c)) {
                (Some(value), Some(digit)) => Some(10 * value + digit),
                _ => None,
            });
        }
        match digit_of(c) {
            None => {
                not_a_number = true;
            },
            Some(digit) => {
                if !not_a_number && !too_large {
                    let next: i64 = value * 10 + digit;
                    if next > 0x8000_0000 {
                        too_large = true;
                    } else {
                        value = next;
                    }
                }
            },
        }
        i += 1;
    }
    assert(digits.take(chars.len() - first) =~= digits);
    if not_a_number || too_large {
        return None;
    }
    let number: i64 = if negative {
        -value
    } else {
        value
    };
    if number < -0x8000_0000 || number > 0x7fff_ffff {
        None
    } else {
        Some(number as i32)
    }
}

/// Where an authentication stands.
#[derive(Debug)]
pub enum AuthState {
    /// Nothing is known yet; the cookie is awaited.
    Start,
    /// The row of the session was asked for.
    AwaitSessionRow,
    /// The session is being read.
    AwaitSession,
    /// The row of the user was asked for.
    AwaitUserRow { user_id: UserId, auth_user_hash: String },
    /// The authentication has ended.
    Done,
}

/// An answer from outside.
#[derive(Debug)]
pub enum AuthEvent {
    /// The session id of the request's cookie, if it has one.
    Cookie { session_id: Option<String> },
    /// The data of the session that has not expired, if there is one.
    SessionRow { session_data: Option<String> },
    /// What the session holds, if its signature is good.
    Session { fields: Option<SessionFields> },
    /// The row of the user, if there is one.
    UserRow { row: Option<UserRow> },
}

/// What is to be done next.
#[derive(Debug)]
pub enum AuthAction {
    /// Ask for the session that has this id and has not expired.
    QuerySession { session_id: String },
    /// Check the signature of the session and read it.
    Unsign { session_data: String },
    /// Ask for the password digest and the realm of the user.
    QueryUser { user_id: UserId },
    /// The request is refused.
    Refuse,
    /// The request was made by this user.
    Accept(AuthContext),
    /// The authentication failed.
    Fail(AuthError),
}

/// What an `AuthState` holds.
pub enum AuthStateView {
    Start,
    AwaitSessionRow,
    AwaitSession,
    AwaitUserRow { user_id: UserId, auth_user_hash: Seq<char> },
    Done,
}

/// What an `AuthAction` holds.
pub enum AuthActionView {
    QuerySession { session_id: Seq<char> },
    Unsign { session_data: Seq<char> },
    QueryUser { user_id: UserId },
    Refuse,
    Accept(AuthContext),
    Fail(AuthError),
}

impl View for AuthState {
    type V = AuthStateView;

    open spec fn view(&self) -> AuthStateView {
        match self {
            AuthState::Start => AuthStateView::Start,
            AuthState::AwaitSessionRow => AuthStateView::AwaitSessionRow,
            AuthState::AwaitSession => AuthStateView::AwaitSession,
            AuthState::AwaitUserRow { user_id, auth_user_hash } => AuthStateView::AwaitUserRow {
                user_id: *user_id,
                auth_user_hash: auth_user_hash@,
            },
            AuthState::Done => AuthStateView::Done,
        }
    }
}

impl View for AuthAction {
    type V = AuthActionView;

    open spec fn view(&self) -> AuthActionView {
        match self {
            AuthAction::QuerySession { session_id } => AuthActionView::QuerySession {
                session_id: session_id@,
            },
            AuthAction::Unsign { session_data } => AuthActionView::Unsign {
                session_data: session_data@,
            },
            AuthAction::QueryUser { user_id } => AuthActionView::QueryUser { user_id: *user_id },
            AuthAction::Refuse => AuthActionView::Refuse,
            AuthAction::Accept(context) => AuthActionView::Accept(*context),
            AuthAction::Fail(e) => AuthActionView::Fail(*e),
        }
    }
}

/// The step that an answer brings about: the next state and what is to be
/// done. A request without a session cookie, without a live session, with
/// a session whose signature is bad, without a user or with a session hash
/// that does not fit is refused. An answer that was not asked for fails
/// the authentication.
pub open spec fn auth_transition(secret_key: Seq<char>, state: AuthState, event: AuthEvent) -> (
    AuthStateView,
    AuthActionView,
) {
    match (state, event) {
        (AuthState::Start, AuthEvent::Cookie { session_id }) => match session_id {
            Some(session_id) => (
                AuthStateView::AwaitSessionRow,
                AuthActionView::QuerySession { session_id: session_id@ },
            ),
            None => (AuthStateView::Done, AuthActionView::Refuse),
        },
        (AuthState::AwaitSessionRow, AuthEvent::SessionRow { session_data }) => match session_data {
            Some(session_data) => (
                AuthStateView::AwaitSession,
                AuthActionView::Unsign { session_data: session_data@ },
            ),
            None => (AuthStateView::Done, AuthActionView::Refuse),
        },
        (AuthState::AwaitSession, AuthEvent::Session { fields }) => match fields {
            Some(fields) => match user_id_of(fields.auth_user_id@) {
                Some(user_id) => (
                    AuthStateView::AwaitUserRow { user_id, auth_user_hash: fields.auth_user_hash@ },
                    AuthActionView::QueryUser { user_id },
                ),
                None => (AuthStateView::Done, AuthActionView::Fail(AuthError::BadUserId)),
            },
            None => (AuthStateView::Done, AuthActionView::Refuse),
        },
        (AuthState::AwaitUserRow { user_id, auth_user_hash }, AuthEvent::UserRow { row }) => match row {
            Some(row) => match session_hash_holds(secret_key, row.password@, auth_user_hash@) {
                Ok(true) => (
                    AuthStateView::Done,
                    AuthActionView::Accept(AuthContext { user_id, realm_id: row.realm_id }),
                ),
                Ok(false) => (AuthStateView::Done, AuthActionView::Refuse),
                Err(e) => (AuthStateView::Done, AuthActionView::Fail(e)),
            },
            None => (AuthStateView::Done, AuthActionView::Refuse),
        },
        _ => (AuthStateView::Done, AuthActionView::Fail(AuthError::OutOfOrder)),
    }
}

/// Takes an answer from outside and says what is to be done next.
pub fn auth_step(secret_key: &str, state: AuthState, event: AuthEvent) -> (r: (AuthState, AuthAction))
    ensures
        (r.0@, r.1@) == auth_transition(secret_key@, state, event),
{
    match (state, event) {
        (AuthState::Start, AuthEvent::Cookie { session_id }) => match session_id {
            Some(session_id) => (AuthState::AwaitSessionRow, AuthAction::QuerySession { session_id }),
            None => (AuthState::Done, AuthAction::Refuse),
        },
        (AuthState::AwaitSessionRow, AuthEvent::SessionRow { session_data }) => match session_data {
            Some(session_data) => (AuthState::AwaitSession, AuthAction::Unsign { session_data }),
            None => (AuthState::Done, AuthAction::Refuse),
        },
        (AuthState::AwaitSession, AuthEvent::Session { fields }) => match fields {
            Some(fields) => match parse_user_id(fields.auth_user_id.as_str()) {
                Some(user_id) => (
                    AuthState::AwaitUserRow { user_id, auth_user_hash: fields.auth_user_hash },
                    AuthAction::QueryUser { user_id },
                ),
                None => (AuthState::Done, AuthAction::Fail(AuthError::BadUserId)),
            },
            None => (AuthState::Done, AuthAction::Refuse),
        },
        (AuthState::AwaitUserRow { user_id, auth_user_hash }, AuthEvent::UserRow { row }) => match row {
            Some(row) => match verify_session_hash(
                secret_key,
                row.password.as_str(),
                auth_user_hash.as_str(),
            ) {
                Ok(true) => (
                    AuthState::Done,
                    AuthAction::Accept(AuthContext { user_id, realm_id: row.realm_id }),
                ),
                Ok(false) => (AuthState::Done, AuthAction::Refuse),
                Err(e) => (AuthState::Done, AuthAction::Fail(e)),
            },
            None => (AuthState::Done, AuthAction::Refuse),
        },
        _ => (AuthState::Done, AuthAction::Fail(AuthError::OutOfOrder)),
    }
}

/// Nobody is accepted but on a session hash that fits: an authentication
/// accepts only in answer to the row of a user, and only where the hash of
/// the session is the one that the user's password digest gives.
pub proof fn law_accept_needs_matching_hash(secret_key: Seq<char>, state: AuthState, event: AuthEvent)
    requires
        auth_transition(secret_key, state, event).1 is Accept,
    ensures
        state is AwaitUserRow,
        event is UserRow,
        event->row is Some,
        session_hash_holds(secret_key, event->row->0.password@, state->auth_user_hash@) == Ok::<
            bool,
            AuthError,
        >(true),
        auth_transition(secret_key, state, event).1->Accept_0 == (AuthContext {
            user_id: state->user_id,
            realm_id: event->row->0.realm_id,
        }),
{
}

} // verus!
