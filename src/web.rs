use vstd::prelude::*;
use crate::error::ServiceError;
use crate::token::{append_decimal, decimal_of, parse_token, token_value};

verus! {

/// Where the confirmation link always redirects to.
pub const LANDING_PATH: &'static str = "/index.html";

/// The identity marker that a successful confirmation hands out.
pub open spec fn session_marker_of(username: Seq<char>, token: i64) -> Seq<char> {
    "tokenuser:"@ + username + "^"@ + decimal_of(token as int) + "; Path=/"@
}

/// A confirmation request: a username and the token it claims.
pub struct Confirm {
    pub username: String,
    pub token: i64,
}

/// The identity marker for `username` holding `token`.
pub fn session_marker(username: &str, token: i64) -> (r: String)
    ensures
        r@ == session_marker_of(username@, token),
{
    let mut r = String::from_str("tokenuser:");
    r.append(username);
    r.append("^");
    append_decimal(&mut r, token);
    r.append("; Path=/");
    assert(r@ =~= session_marker_of(username@, token));
    r
}

impl Confirm {
    /// The request from the link's query parameters: both must be present and
    /// the token must be a decimal `i64`; anything else is a validation error.
    pub fn from_params(username: Option<&str>, token: Option<&str>) -> (r: Result<
        Confirm,
        ServiceError,
    >)
        ensures
            match r {
                Ok(c) => username matches Some(u) && token matches Some(t) && c.username@ == u@
                    && token_value(t@) == Some(c.token as int),
                Err(e) => e == ServiceError::Validation && (username is None || token is None
                    || token_value(token->0@) is None),
            },
    {
        let u = match username {
            Some(u) => u,
            None => return Err(ServiceError::Validation),
        };
        let t = match token {
            Some(t) => t,
            None => return Err(ServiceError::Validation),
        };
        match parse_token(t) {
            Some(v) => Ok(Confirm { username: String::from_str(u), token: v }),
            None => Err(ServiceError::Validation),
        }
    }

    /// The marker that the confirmation response sets: the session marker
    /// when the confirmation took effect, empty otherwise.
    pub fn marker(&self, confirmed: bool) -> (r: String)
        ensures
            confirmed ==> r@ == session_marker_of(self.username@, self.token),
            !confirmed ==> r@.len() == 0,
    {
        if confirmed {
            session_marker(self.username.as_str(), self.token)
        } else {
            String::new()
        }
    }
}

} // verus!
