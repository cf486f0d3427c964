//! Bearer-token authentication: which requests pass, and why the others do
//! not.
//!
//! Tokens are signed and decoded elsewhere. This module holds the claims of
//! a decoded token and the decisions that lead from a request's path, its
//! `Authorization` header and the decoded token to admission or refusal.

use std::rc::Rc;
use std::sync::Arc;
use vstd::prelude::*;
use vstd::string::*;
use crate::ident::format_uuid;
use crate::ident::uuid_parse_result;
use crate::ident::uuid_parse_str;
use crate::ident::uuid_text;
use crate::ident::parse_result_matches;

verus! {

/// The claims of a token: when it expires, when it was issued, both in
/// seconds since the Unix epoch, and the user it was issued to.
#[derive(Debug)]
pub struct UserToken {
    pub exp: i64,
    pub iat: i64,
    pub sub: String,
}

/// Why a token could not be made or read.
#[derive(Debug)]
pub enum TokenError {
    /// Signing failed, with the signer's words.
    Creation(String),
    /// The token's signature is good but its time is over.
    Expired,
    /// The token could not be decoded, with the decoder's words.
    Invalid(String),
}

/// Calls `chrono::Utc::now` and hands back its `timestamp`: the seconds since
/// the Unix epoch. Trusted; nothing is claimed of the number, which is read
/// from the clock.
#[verifier::external_body]
pub(crate) fn unix_now() -> i64 {
    chrono::Utc::now().timestamp()
}

impl UserToken {
    /// Whether the token is in force at `now`: issued by then and not yet
    /// expired.
    pub open spec fn in_force(&self, now: i64) -> bool {
        self.iat <= now && self.exp > now
    }

    /// The claims of a token issued to `user_id` at `now` for `ttl_seconds`.
    pub fn new_at(user_id: u128, ttl_seconds: i64, now: i64) -> (token: Self)
        requires
            i64::MIN <= now + ttl_seconds <= i64::MAX,
        ensures
            token.exp == now + ttl_seconds,
            token.iat == now,
            token.sub@ == uuid_text(user_id),
    {
        UserToken { exp: now + ttl_seconds, iat: now, sub: format_uuid(user_id) }
    }

    /// The claims of a token issued to `user_id` now for `ttl_seconds`;
    /// `None` where the moment of its expiry is beyond what the claims can
    /// hold. The clock decides which moment now is.
    pub fn new(user_id: u128, ttl_seconds: i64) -> (token: Option<Self>)
        ensures
            token matches Some(t) ==> t.exp == t.iat + ttl_seconds && t.sub@ == uuid_text(
                user_id,
            ),
            ttl_seconds == 0 ==> token is Some,
    {
        let now = unix_now();
        match now.checked_add(ttl_seconds) {
            Some(_) => Some(Self::new_at(user_id, ttl_seconds, now)),
            None => None,
        }
    }

    /// Whether the token is in force at `now`.
    pub fn is_valid_at(&self, now: i64) -> (valid: bool)
        ensures
            valid == self.in_force(now),
    {
        self.iat <= now && self.exp > now
    }

    /// Whether the token is in force now: the answer of [`Self::is_valid_at`]
    /// for the moment that the clock shows. A token that was not issued
    /// before it expires is in force at no moment.
    pub fn is_valid(&self) -> (valid: bool)
        ensures
            exists|now: i64| valid == self.in_force(now),
            valid ==> self.iat < self.exp,
    {
        let now = unix_now();
        let valid = self.is_valid_at(now);
        assert(valid == self.in_force(now));
        valid
    }

    /// The user that the token was issued to, or the parser's complaint
    /// where the subject is no identifier.
    pub fn get_user_id(&self) -> (r: Result<u128, String>)
        ensures
            parse_result_matches(r, uuid_parse_result(self.sub@)),
    {
        uuid_parse_str(self.sub.as_str())
    }
}

/// What is decided of a request.
#[derive(Debug)]
pub enum Admission {
    /// The request goes on to the service.
    Pass,
    /// The request carries this bearer token, which is to be decoded.
    Check(String),
    /// The request is refused as unauthorized, for this reason.
    Deny(String),
}

/// What is decided of a request, with texts as sequences.
pub enum AdmissionView {
    Pass,
    Check(Seq<char>),
    Deny(Seq<char>),
}

impl View for Admission {
    type V = AdmissionView;

    open spec fn view(&self) -> AdmissionView {
        match self {
            Admission::Pass => AdmissionView::Pass,
            Admission::Check(token) => AdmissionView::Check(token@),
            Admission::Deny(reason) => AdmissionView::Deny(reason@),
        }
    }
}

/// The token of an `Authorization` header: what follows `Bearer `.
pub open spec fn bearer_token(header: Seq<char>) -> Option<Seq<char>> {
    if header.len() >= 7 && header.subrange(0, 7) == "Bearer "@ {
        Some(header.subrange(7, header.len() as int))
    } else {
        None
    }
}

/// The token of an `Authorization` header, if it is a bearer token.
pub fn read_bearer(header: &str) -> (token: Option<String>)
    ensures
        match bearer_token(header@) {
            Some(expected) => token is Some && token->Some_0@ == expected,
            None => token is None,
        },
{
    let len = header.unicode_len();
    if len < 7 {
        return None;
    }
    let scheme = String::from_str(header.substring_char(0, 7));
    if scheme == String::from_str("Bearer ") {
        Some(String::from_str(header.substring_char(7, len)))
    } else {
        None
    }
}

/// Whether `paths` holds `path`.
pub open spec fn lists(paths: Seq<String>, path: Seq<char>) -> bool {
    exists|i: int| 0 <= i < paths.len() && (#[trigger] paths[i])@ == path
}

/// The settings of the authentication: the secret that tokens are signed
/// with, and the paths that need no token.
pub struct Authentication {
    pub secret: Arc<String>,
    pub excluded_paths: Vec<String>,
}

impl Authentication {
    pub fn new(secret: Arc<String>, excluded_paths: Option<Vec<String>>) -> (auth: Self)
        ensures
            auth.secret == secret,
            match excluded_paths {
                Some(paths) => auth.excluded_paths == paths,
                None => auth.excluded_paths@ == Seq::<String>::empty(),
            },
    {
        let excluded_paths = match excluded_paths {
            Some(paths) => paths,
            None => Vec::new(),
        };
        Self { secret, excluded_paths }
    }
}

/// The authentication in front of one service.
pub struct AuthenticationMiddleware<S> {
    pub service: Rc<S>,
    pub secret: Arc<String>,
    pub excluded_paths: Vec<String>,
}

impl<S> AuthenticationMiddleware<S> {
    /// The first decision of a request, from its path and its
    /// `Authorization` header, if it has one that is text.
    pub open spec fn first_decision(&self, path: Seq<char>, header: Option<Seq<char>>) -> AdmissionView {
        if lists(self.excluded_paths@, path) {
            AdmissionView::Pass
        } else {
            match header {
                Some(header) => match bearer_token(header) {
                    Some(token) => AdmissionView::Check(token),
                    None => AdmissionView::Deny("Missing or invalid Authorization header"@),
                },
                None => AdmissionView::Deny("Missing or invalid Authorization header"@),
            }
        }
    }

    /// Whether `path` needs no token.
    pub fn is_excluded(&self, path: &str) -> (excluded: bool)
        ensures
            excluded == lists(self.excluded_paths@, path@),
    {
        let wanted = String::from_str(path);
        let mut i: usize = 0;
        while i < self.excluded_paths.len()
            invariant
                i <= self.excluded_paths.len(),
                wanted@ == path@,
                forall|k: int| 0 <= k < i ==> (#[trigger] self.excluded_paths@[k])@ != path@,
            decreases self.excluded_paths.len() - i,
        {
            if self.excluded_paths[i] == wanted {
                return true;
            }
            i += 1;
        }
        false
    }

    /// Decides what is to happen with a request: a request for an excluded
    /// path passes; any other must carry a bearer token, which is then to be
    /// decoded.
    pub fn inspect(&self, path: &str, authorization: Option<&str>) -> (admission: Admission)
        ensures
            admission@ == self.first_decision(
                path@,
                match authorization {
                    Some(header) => Some(header@),
                    None => None,
                },
            ),
    {
        if self.is_excluded(path) {
            return Admission::Pass;
        }
        match authorization {
            Some(header) => match read_bearer(header) {
                Some(token) => Admission::Check(token),
                None => Admission::Deny(String::from_str("Missing or invalid Authorization header")),
            },
            None => Admission::Deny(String::from_str("Missing or invalid Authorization header")),
        }
    }
}

/// The decision on a decoded token: a token in force at `now` passes, one
/// that is not has expired, and a token that could not be decoded is
/// invalid.
pub open spec fn token_decision(decoded: Result<UserToken, TokenError>, now: i64) -> AdmissionView {
    match decoded {
        Ok(token) => if token.in_force(now) {
            AdmissionView::Pass
        } else {
            AdmissionView::Deny("Token expired"@)
        },
        Err(_) => AdmissionView::Deny("Invalid token"@),
    }
}

/// Decides on a request by its decoded token.
pub fn verdict_at(decoded: &Result<UserToken, TokenError>, now: i64) -> (admission: Admission)
    ensures
        admission@ == token_decision(*decoded, now),
{
    match decoded {
        Ok(token) => if token.is_valid_at(now) {
            Admission::Pass
        } else {
            Admission::Deny(String::from_str("Token expired"))
        },
        Err(_) => Admission::Deny(String::from_str("Invalid token")),
    }
}

/// Decides on a request by its decoded token, at the moment that the clock
/// shows.
pub fn verdict(decoded: &Result<UserToken, TokenError>) -> (admission: Admission)
    ensures
        exists|now: i64| admission@ == token_decision(*decoded, now),
{
    let now = unix_now();
    verdict_at(decoded, now)
}

} // verus!
