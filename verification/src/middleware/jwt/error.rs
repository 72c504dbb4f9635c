//! The reasons an authorisation fails, and how each is answered.
use vstd::prelude::*;
use vstd::string::*;

verus! {

/// Why an authorisation failed.
#[derive(Debug, Clone, PartialEq, Eq)]
pub enum AuthError {
    InvalidToken,
    WrongCredentials,
    TokenCreation,
    MissingCredentials,
    /// The token library refused the token; holds its error's debug text.
    JsonWebTokenError(String),
}

impl AuthError {
    /// The message of an error.
    pub open spec fn spec_message(self) -> Seq<char> {
        match self {
            AuthError::JsonWebTokenError(_) => "json web token parse error"@,
            _ => "invliad token"@,
        }
    }

    /// The HTTP status an error is answered with.
    pub open spec fn spec_status(self) -> u16 {
        match self {
            AuthError::WrongCredentials => 401,
            AuthError::MissingCredentials => 400,
            AuthError::TokenCreation => 500,
            AuthError::InvalidToken => 400,
            AuthError::JsonWebTokenError(_) => 401,
        }
    }

    /// The text of the `error` field of the answer to an error.
    pub open spec fn spec_reason(self) -> Seq<char> {
        match self {
            AuthError::WrongCredentials => "Wrong credentials"@,
            AuthError::MissingCredentials => "Missing credentials"@,
            AuthError::TokenCreation => "Token creation error"@,
            AuthError::InvalidToken => "Invalid token"@,
            AuthError::JsonWebTokenError(_) => "jwt parse error"@,
        }
    }

    /// The message of this error.
    pub fn to_string(&self) -> (r: String)
        ensures
            r@ == self.spec_message(),
    {
        match self {
            AuthError::JsonWebTokenError(_) => String::from_str("json web token parse error"),
            _ => String::from_str("invliad token"),
        }
    }

    /// The HTTP status this error is answered with.
    pub fn status(&self) -> (r: u16)
        ensures
            r == self.spec_status(),
    {
        match self {
            AuthError::WrongCredentials => 401,
            AuthError::MissingCredentials => 400,
            AuthError::TokenCreation => 500,
            AuthError::InvalidToken => 400,
            AuthError::JsonWebTokenError(_) => 401,
        }
    }

    /// The text of the `error` field of the answer to this error.
    pub fn reason(&self) -> (r: &'static str)
        ensures
            r@ == self.spec_reason(),
    {
        match self {
            AuthError::WrongCredentials => "Wrong credentials",
            AuthError::MissingCredentials => "Missing credentials",
            AuthError::TokenCreation => "Token creation error",
            AuthError::InvalidToken => "Invalid token",
            AuthError::JsonWebTokenError(_) => "jwt parse error",
        }
    }

    /// The JSON body of the answer to this error: `{"error":"<reason>"}`.
    pub fn response_body(&self) -> (r: String)
        ensures
            r@ == "{\"error\":\""@ + self.spec_reason() + "\"}"@,
    {
        let mut r = String::from_str("{\"error\":\"");
        r.append(self.reason());
        r.append("\"}");
        r
    }
}

} // verus!
