//! The records of the user store and what can go wrong with it.
//!
//! The store itself is not here. Whoever holds it asks it the questions and
//! hands the answers to these functions.

use vstd::prelude::*;
use crate::authentication::{argon2_accepts, compute_password_hash, phc_valid};
use crate::identity::{format_id, hyphenated_text};
use crate::message::ClientId;
use crate::text::push_str;

verus! {

/// Why an action on the user store failed.
#[derive(Clone, Copy, Debug, PartialEq, Eq, Structural)]
pub enum Error {
    UsernameIsTaken,
    /// The store reported an error.
    Db,
    /// Anything else.
    UnexpectedError,
}

impl Error {
    /// What to tell a person about the error.
    pub fn message(&self) -> (r: &'static str)
        ensures
            r@ == match *self {
                Error::UsernameIsTaken => "Username is already taken"@,
                Error::Db => "Database error"@,
                Error::UnexpectedError => "Unexpected error"@,
            },
    {
        match self {
            Error::UsernameIsTaken => "Username is already taken",
            Error::Db => "Database error",
            Error::UnexpectedError => "Unexpected error",
        }
    }

    /// The HTTP status that answers a request which ran into this error:
    /// always 500.
    pub fn error_response(&self) -> (status: u16)
        ensures
            status == 500,
    {
        500
    }
}

/// A user as the store holds it. The password is a hash.
#[derive(Debug, PartialEq, Eq)]
pub struct User {
    pub uuid: ClientId,
    pub name: String,
    pub password: String,
}

impl User {
    /// The user in one line: the name and the identity, not the password.
    pub fn to_string(&self) -> (r: String)
        ensures
            r@ == "User: "@ + self.name@ + ": "@ + hyphenated_text(self.uuid),
    {
        let mut out = String::new();
        push_str(&mut out, "User: ");
        push_str(&mut out, self.name.as_str());
        push_str(&mut out, ": ");
        let id = format_id(self.uuid);
        push_str(&mut out, id.as_str());
        assert(out@ =~= "User: "@ + self.name@ + ": "@ + hyphenated_text(self.uuid));
        out
    }
}

/// A user that is about to be stored.
#[derive(Debug, PartialEq, Eq)]
pub struct NewUser {
    pub uuid: ClientId,
    pub name: String,
    pub password: String,
}

/// Makes the record of a new user named `username`, to be stored under the
/// identity `uuid`.
///
/// `taken` is the store's answer to whether the name is in use. Only the
/// answer "no" lets the user be made; that the store could not tell counts
/// as taken. The record holds a hash that the password verifies against,
/// never the password.
pub fn create_user(username: &str, pwd: &str, uuid: ClientId, taken: Option<bool>) -> (r: Result<NewUser, Error>)
    ensures
        taken != Some(false) ==> r is Err && r->Err_0 == Error::UsernameIsTaken,
        taken == Some(false) && r is Err ==> r->Err_0 == Error::UnexpectedError,
        r is Ok ==> taken == Some(false) && r->Ok_0.uuid == uuid && r->Ok_0.name@ == username@
            && phc_valid(r->Ok_0.password@) && argon2_accepts(r->Ok_0.password@, pwd@),
{
    match taken {
        Some(false) => match compute_password_hash(pwd) {
            Ok(password) => Ok(NewUser { uuid, name: username.to_owned(), password }),
            Err(_) => Err(Error::UnexpectedError),
        },
        _ => Err(Error::UsernameIsTaken),
    }
}

} // verus!
