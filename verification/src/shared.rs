//! Declarations shared between the server and its clients: credentials,
//! session ids and the plain question/answer item.
use vstd::prelude::*;

verus! {

/// Plain (unhashed) password.
#[derive(PartialEq, Eq, Hash, Clone)]
pub struct Plain(pub String);

/// Name of a user account.
#[derive(Debug, PartialEq, Eq, Hash, Clone)]
pub struct Username(pub String);

/// Password hash, as a PHC string.
#[derive(Debug, PartialEq, Eq, Hash, Clone)]
pub struct Hashed(pub String);

/// Session id handed to a logged-in user.
#[derive(Debug, PartialEq, Eq, Hash, Clone)]
pub struct SessionId(pub String);

/// Authentication request body.
#[derive(Clone)]
pub struct Auth {
    /// Plain password.
    pub password: Plain,
    /// Username.
    pub username: Username,
}

impl Auth {
    /// Creates a new [`Auth`] from the given credentials.
    pub fn new(username: String, password: String) -> (auth: Auth)
        ensures
            auth.username.0@ == username@,
            auth.password.0@ == password@,
    {
        Auth { password: Plain(password), username: Username(username) }
    }
}

/// A question with its answer.
#[derive(Debug, Clone)]
pub struct Item {
    /// The correct answer.
    pub answer: String,
    /// Question.
    pub question: String,
}

} // verus!
