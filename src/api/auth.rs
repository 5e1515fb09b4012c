//! Sign-in credentials and the session token.
use vstd::prelude::*;
use crate::download::status_is_success;

verus! {

/// Error key: the server refused the login or password.
pub const LP_ERROR: &'static str = "login_error";

/// Error key: the server failed.
pub const IS_ERROR: &'static str = "login_is_error";

/// Credentials, and the token that a successful sign-in gives.
#[derive(Debug, Default, Clone, PartialEq, Eq)]
pub struct Auth {
    pub login: String,
    pub password: String,
    pub token: String,
}

/// Whether a character is kept in a saved token: line breaks, tabs and NUL
/// are not.
pub open spec fn token_char(c: char) -> bool {
    c != '\n' && c != '\t' && c != '\0' && c != '\r'
}

/// The text without the characters that a saved token cannot hold.
pub open spec fn strip_token(s: Seq<char>) -> Seq<char>
    decreases s.len(),
{
    if s.len() == 0 {
        s
    } else if token_char(s.last()) {
        strip_token(s.drop_last()).push(s.last())
    } else {
        strip_token(s.drop_last())
    }
}

/// Why a sign-in failed.
#[derive(Debug, Clone, Copy, PartialEq, Eq, Structural)]
pub enum AuthError {
    /// The server refused the credentials (a 4xx answer).
    Rejected,
    /// The server failed, or answered in some other way.
    ServiceError,
    /// A successful answer held no token.
    MissingToken,
}

/// Whether a status is a client error (4xx).
pub open spec fn is_client_error(status: u16) -> bool {
    400 <= status < 500
}

impl AuthError {
    /// The error key that the interface translates.
    pub fn key(&self) -> (r: &'static str)
        ensures
            *self is Rejected ==> r@ == LP_ERROR@,
            !(*self is Rejected) ==> r@ == IS_ERROR@,
    {
        match self {
            AuthError::Rejected => LP_ERROR,
            _ => IS_ERROR,
        }
    }
}

impl Auth {
    /// The session read back from the token file's contents: no credentials,
    /// and the token without line breaks, tabs or NUL characters.
    pub fn from_saved(contents: &str) -> (r: Self)
        ensures
            r.login@.len() == 0,
            r.password@.len() == 0,
            r.token@ == strip_token(contents@),
    {
        let n = contents.unicode_len();
        let mut token = String::new();
        let mut i: usize = 0;
        while i < n
            invariant
                n == contents@.len(),
                i <= n,
                token@ == strip_token(contents@.take(i as int)),
            decreases n - i,
        {
            let c = contents.get_char(i);
            proof {
                assert(contents@.take(i as int + 1).drop_last() =~= contents@.take(i as int));
                assert(contents@.take(i as int + 1).last() == c);
            }
            if c != '\n' && c != '\t' && c != '\0' && c != '\r' {
                let piece = contents.substring_char(i, i + 1);
                proof {
                    assert(piece@ =~= seq![c]);
                }
                token.append(piece);
            }
            i = i + 1;
        }
        assert(contents@.take(n as int) =~= contents@);
        Auth { login: String::new(), password: String::new(), token }
    }

    /// Takes the sign-in answer: its status, and the token it carried if it
    /// carried one. A 2xx answer with a token stores it; a 4xx answer means
    /// the credentials were refused; anything else is a service failure.
    pub fn accept_login_answer(&mut self, status: u16, token: Option<String>) -> (r: Result<(), AuthError>)
        ensures
            final(self).login == old(self).login,
            final(self).password == old(self).password,
            200 <= status < 300 && token is Some ==> r is Ok && final(self).token == token.unwrap(),
            200 <= status < 300 && token is None ==> r == Err::<(), AuthError>(AuthError::MissingToken)
                && final(self).token == old(self).token,
            is_client_error(status) ==> r == Err::<(), AuthError>(AuthError::Rejected)
                && final(self).token == old(self).token,
            !(200 <= status < 300) && !is_client_error(status) ==> r == Err::<(), AuthError>(
                AuthError::ServiceError,
            ) && final(self).token == old(self).token,
    {
        if status_is_success(status) {
            match token {
                Some(t) => {
                    self.token = t;
                    Ok(())
                },
                None => Err(AuthError::MissingToken),
            }
        } else if 400 <= status && status < 500 {
            Err(AuthError::Rejected)
        } else {
            Err(AuthError::ServiceError)
        }
    }
}

} // verus!
