//! Who a client is: HTTP Basic credentials and their check against a stored
//! password hash.

use vstd::prelude::*;
use vstd::utf8::{decode_utf8, valid_utf8};
use crate::db::User;
use crate::message::ClientId;
use crate::text::{find_char, first_index, has_prefix, lemma_first_index, starts_with};

verus! {

/// The bytes that `base64::decode_config` with the standard alphabet reads
/// from `text`, if `text` is Base64.
pub uninterp spec fn base64_decoded(text: Seq<char>) -> Option<Seq<u8>>;

/// Whether `argon2::PasswordHash::new` takes `text` for a password hash in
/// the PHC string format.
pub uninterp spec fn phc_valid(text: Seq<char>) -> bool;

/// Whether Argon2 with its default settings finds that `password` matches
/// the password hash that `hash` spells.
pub uninterp spec fn argon2_accepts(hash: Seq<char>, password: Seq<char>) -> bool;

/// The password hash, as a PHC string, that Argon2 with its default
/// settings makes of `password` with `salt`, if it makes one.
pub uninterp spec fn argon2_phc(password: Seq<char>, salt: Seq<char>) -> Option<Seq<char>>;

/// Calls `base64::decode_config` with `base64::STANDARD`. Trusted: whether
/// it decodes, and to which bytes, depends on the text alone.
#[verifier::external_body]
fn base64_decode(text: &str) -> (r: Option<Vec<u8>>)
    ensures
        r is Some <==> base64_decoded(text@) is Some,
        r is Some ==> Some(r.unwrap()@) == base64_decoded(text@),
{
    base64::decode_config(text, base64::STANDARD).ok()
}

/// Calls `String::from_utf8`. Trusted: it gives the text that valid UTF-8
/// spells, and fails on anything else.
#[verifier::external_body]
fn string_from_utf8(bytes: Vec<u8>) -> (r: Option<String>)
    ensures
        r is Some <==> valid_utf8(bytes@),
        r is Some ==> r.unwrap()@ == decode_utf8(bytes@),
{
    String::from_utf8(bytes).ok()
}

/// Calls `argon2::PasswordHash::new`. Trusted: whether the text parses
/// depends on the text alone.
#[verifier::external_body]
fn phc_parses(text: &str) -> (r: bool)
    ensures
        r == phc_valid(text@),
{
    argon2::PasswordHash::new(text).is_ok()
}

/// Calls `argon2::PasswordHash::new` on `expected` and, with the hash that
/// it read, `verify_password` of `argon2::Argon2::default()`. Trusted:
/// whether a hash that parses accepts a password depends on the two alone;
/// text that does not parse accepts none.
#[verifier::external_body]
fn argon2_matches(expected: &str, password: &str) -> (r: bool)
    ensures
        phc_valid(expected@) ==> r == argon2_accepts(expected@, password@),
        !phc_valid(expected@) ==> !r,
{
    match argon2::PasswordHash::new(expected) {
        Ok(hash) => argon2::PasswordVerifier::verify_password(
            &argon2::Argon2::default(),
            password.as_bytes(),
            &hash,
        ).is_ok(),
        Err(_) => false,
    }
}

/// Calls `argon2::password_hash::SaltString::generate` with the thread's
/// random number generator. The salt differs from call to call; nothing is
/// claimed of it.
#[verifier::external_body]
fn fresh_salt() -> (r: String)
{
    argon2::password_hash::SaltString::generate(&mut rand::thread_rng()).as_str().to_owned()
}

/// Calls `hash_password` of `argon2::Argon2::default()` and formats the
/// hash as a PHC string. Trusted: the outcome depends on password and salt
/// alone, and a hash that was made parses and accepts the password it was
/// made of.
#[verifier::external_body]
fn argon2_hash(password: &str, salt: &str) -> (r: Option<String>)
    ensures
        r is Some <==> argon2_phc(password@, salt@) is Some,
        r is Some ==> Some(r.unwrap()@) == argon2_phc(password@, salt@),
        r is Some ==> phc_valid(r.unwrap()@) && argon2_accepts(r.unwrap()@, password@),
{
    argon2::PasswordHasher::hash_password(&argon2::Argon2::default(), password.as_bytes(), salt)
        .ok()
        .map(|h| h.to_string())
}

/// What a request carried under `Authorization`.
#[derive(Debug, PartialEq, Eq)]
pub enum AuthorizationHeader {
    /// The request had no such header.
    Missing,
    /// The header's value was not text.
    NotText,
    Value(String),
}

/// Mathematical value of an [`AuthorizationHeader`].
pub enum AuthorizationHeaderView {
    Missing,
    NotText,
    Value(Seq<char>),
}

impl View for AuthorizationHeader {
    type V = AuthorizationHeaderView;

    open spec fn view(&self) -> AuthorizationHeaderView {
        match *self {
            AuthorizationHeader::Missing => AuthorizationHeaderView::Missing,
            AuthorizationHeader::NotText => AuthorizationHeaderView::NotText,
            AuthorizationHeader::Value(v) => AuthorizationHeaderView::Value(v@),
        }
    }
}

/// A user name and a password, as a client gave them. Not printable.
pub struct Credentials {
    pub username: String,
    pub password: String,
}

/// Mathematical value of [`Credentials`].
pub struct CredentialsView {
    pub username: Seq<char>,
    pub password: Seq<char>,
}

impl View for Credentials {
    type V = CredentialsView;

    open spec fn view(&self) -> CredentialsView {
        CredentialsView { username: self.username@, password: self.password@ }
    }
}

/// What was wrong with credentials.
#[derive(Clone, Copy, Debug, PartialEq, Eq, Structural)]
pub enum InvalidCredentials {
    MissingHeader,
    HeaderNotText,
    /// The scheme was not `Basic`.
    NotBasic,
    NotBase64,
    NotUtf8,
    /// The credentials held no colon, so no password.
    NoPassword,
    WrongPassword,
}

impl InvalidCredentials {
    /// What to tell a person about it.
    pub fn message(&self) -> (r: &'static str)
        ensures
            r@ == match *self {
                InvalidCredentials::MissingHeader => "The 'Authorization' header was missing"@,
                InvalidCredentials::HeaderNotText => "The 'Authorization' header was not a valid UTF8 string."@,
                InvalidCredentials::NotBasic => "The authorization scheme was not 'Basic'."@,
                InvalidCredentials::NotBase64 => "Failed to base64-decode 'Basic' credentials."@,
                InvalidCredentials::NotUtf8 => "The decoded credential string is not valid UTF8."@,
                InvalidCredentials::NoPassword => "A password must be provided in 'Basic' auth."@,
                InvalidCredentials::WrongPassword => "Invalid password."@,
            },
    {
        match self {
            InvalidCredentials::MissingHeader => "The 'Authorization' header was missing",
            InvalidCredentials::HeaderNotText => "The 'Authorization' header was not a valid UTF8 string.",
            InvalidCredentials::NotBasic => "The authorization scheme was not 'Basic'.",
            InvalidCredentials::NotBase64 => "Failed to base64-decode 'Basic' credentials.",
            InvalidCredentials::NotUtf8 => "The decoded credential string is not valid UTF8.",
            InvalidCredentials::NoPassword => "A password must be provided in 'Basic' auth.",
            InvalidCredentials::WrongPassword => "Invalid password.",
        }
    }
}

/// Why a client was not authenticated.
#[derive(Clone, Copy, Debug, PartialEq, Eq, Structural)]
pub enum Error {
    InvalidCredentials(InvalidCredentials),
    FailedToParsePasswordHash,
    FailedToHashPassword,
    UnknownUser,
    /// The user store failed.
    UserAction(crate::db::Error),
    UnexpectedError,
}

/// How to answer a request that was not authenticated.
#[derive(Debug, PartialEq, Eq)]
pub struct Response {
    pub status: u16,
    /// The value of the `WWW-Authenticate` header, if one is sent.
    pub www_authenticate: Option<String>,
}

impl Error {
    /// What to tell a person about the error.
    pub fn message(&self) -> (r: &'static str)
        ensures
            r@ == match *self {
                Error::InvalidCredentials(_) => "Invalid credentials."@,
                Error::FailedToParsePasswordHash => "Failed parse PasswordHash"@,
                Error::FailedToHashPassword => "Failed hash password"@,
                Error::UnknownUser => "Unknown user"@,
                Error::UserAction(_) => "User error"@,
                Error::UnexpectedError => "Unexpected error"@,
            },
    {
        match self {
            Error::InvalidCredentials(_) => "Invalid credentials.",
            Error::FailedToParsePasswordHash => "Failed parse PasswordHash",
            Error::FailedToHashPassword => "Failed hash password",
            Error::UnknownUser => "Unknown user",
            Error::UserAction(_) => "User error",
            Error::UnexpectedError => "Unexpected error",
        }
    }

    /// The HTTP status for the error: 500 for an unexpected error, 401 for
    /// every other.
    pub open spec fn status(self) -> u16 {
        if self == Error::UnexpectedError {
            500
        } else {
            401
        }
    }

    /// The answer to a request that ran into this error. Every error but an
    /// unexpected one is answered with 401 and a challenge for Basic
    /// credentials.
    pub fn error_response(&self) -> (r: Response)
        ensures
            r.status == self.status(),
            *self == Error::UnexpectedError ==> r.www_authenticate is None,
            *self != Error::UnexpectedError ==> r.www_authenticate is Some
                && r.www_authenticate.unwrap()@ == "Basic realm=\"login\""@,
    {
        match self {
            Error::UnexpectedError => Response { status: 500, www_authenticate: None },
            _ => Response {
                status: 401,
                www_authenticate: Some("Basic realm=\"login\"".to_owned()),
            },
        }
    }
}

/// The text that the value of a Basic `Authorization` header carries.
pub open spec fn decoded_text(value: Seq<char>) -> Result<Seq<char>, InvalidCredentials> {
    if !has_prefix(value, "Basic "@) {
        Err(InvalidCredentials::NotBasic)
    } else {
        match base64_decoded(value.skip("Basic "@.len() as int)) {
            None => Err(InvalidCredentials::NotBase64),
            Some(bytes) => if valid_utf8(bytes) {
                Ok(decode_utf8(bytes))
            } else {
                Err(InvalidCredentials::NotUtf8)
            },
        }
    }
}

/// The credentials in `text`: the user name before the first colon, the
/// password after it.
pub open spec fn split_credentials(text: Seq<char>) -> Result<CredentialsView, InvalidCredentials> {
    if text.contains(':') {
        Ok(
            CredentialsView {
                username: text.take(first_index(text, ':')),
                password: text.skip(first_index(text, ':') + 1),
            },
        )
    } else {
        Err(InvalidCredentials::NoPassword)
    }
}

/// The credentials that a request carried.
pub open spec fn basic_credentials(header: AuthorizationHeaderView) -> Result<
    CredentialsView,
    InvalidCredentials,
> {
    match header {
        AuthorizationHeaderView::Missing => Err(InvalidCredentials::MissingHeader),
        AuthorizationHeaderView::NotText => Err(InvalidCredentials::HeaderNotText),
        AuthorizationHeaderView::Value(value) => match decoded_text(value) {
            Ok(text) => split_credentials(text),
            Err(e) => Err(e),
        },
    }
}

/// The value of the credentials in a result.
pub open spec fn credentials_view(r: Result<Credentials, Error>) -> Result<CredentialsView, Error> {
    match r {
        Ok(c) => Ok(c@),
        Err(e) => Err(e),
    }
}

/// The error for credentials that could not be read.
pub open spec fn invalid(r: Result<CredentialsView, InvalidCredentials>) -> Result<
    CredentialsView,
    Error,
> {
    match r {
        Ok(c) => Ok(c),
        Err(e) => Err(Error::InvalidCredentials(e)),
    }
}

/// Reads the credentials of the Basic scheme from what a request carried
/// under `Authorization`: see [`basic_credentials`].
pub fn basic_authentication(header: &AuthorizationHeader) -> (r: Result<Credentials, Error>)
    ensures
        credentials_view(r) == invalid(basic_credentials(header@)),
{
    let value = match header {
        AuthorizationHeader::Missing => {
            return Err(Error::InvalidCredentials(InvalidCredentials::MissingHeader));
        },
        AuthorizationHeader::NotText => {
            return Err(Error::InvalidCredentials(InvalidCredentials::HeaderNotText));
        },
        AuthorizationHeader::Value(value) => value.as_str(),
    };
    if !starts_with(value, "Basic ") {
        return Err(Error::InvalidCredentials(InvalidCredentials::NotBasic));
    }
    let scheme = "Basic ".unicode_len();
    let segment = value.substring_char(scheme, value.unicode_len());
    assert(segment@ =~= value@.skip("Basic "@.len() as int));
    let bytes = match base64_decode(segment) {
        Some(bytes) => bytes,
        None => {
            return Err(Error::InvalidCredentials(InvalidCredentials::NotBase64));
        },
    };
    let text = match string_from_utf8(bytes) {
        Some(text) => text,
        None => {
            return Err(Error::InvalidCredentials(InvalidCredentials::NotUtf8));
        },
    };
    let text = text.as_str();
    match find_char(text, ':') {
        Some(at) => {
            proof {
                lemma_first_index(text@, ':', at as int);
            }
            let end = text.unicode_len();
            assert(at < end);
            let username = text.substring_char(0, at).to_owned();
            let password = text.substring_char(at + 1, end).to_owned();
            assert(username@ =~= text@.take(at as int));
            assert(password@ =~= text@.skip(at + 1));
            Ok(Credentials { username, password })
        },
        None => Err(Error::InvalidCredentials(InvalidCredentials::NoPassword)),
    }
}

/// Checks `password_candidate` against a stored password hash.
///
/// Fails with `FailedToParsePasswordHash` where the stored text is no
/// password hash, and with `InvalidCredentials` where the password does not
/// match it.
pub fn verify_password_hash(expected_password_hash: &str, password_candidate: &str) -> (r: Result<(), Error>)
    ensures
        !phc_valid(expected_password_hash@) ==> r == Err::<(), Error>(
            Error::FailedToParsePasswordHash,
        ),
        phc_valid(expected_password_hash@) && !argon2_accepts(
            expected_password_hash@,
            password_candidate@,
        ) ==> r == Err::<(), Error>(Error::InvalidCredentials(InvalidCredentials::WrongPassword)),
        phc_valid(expected_password_hash@) && argon2_accepts(
            expected_password_hash@,
            password_candidate@,
        ) ==> r is Ok,
{
    if !phc_parses(expected_password_hash) {
        return Err(Error::FailedToParsePasswordHash);
    }
    if argon2_matches(expected_password_hash, password_candidate) {
        Ok(())
    } else {
        Err(Error::InvalidCredentials(InvalidCredentials::WrongPassword))
    }
}

/// The value of a hash in a result.
pub open spec fn hash_view(r: Result<String, Error>) -> Result<Seq<char>, Error> {
    match r {
        Ok(h) => Ok(h@),
        Err(e) => Err(e),
    }
}

/// Hashes `password` with the given salt. The hash that comes out is one
/// that `password` verifies against.
pub fn hash_with_salt(password: &str, salt: &str) -> (r: Result<String, Error>)
    ensures
        hash_view(r) == match argon2_phc(password@, salt@) {
            Some(hash) => Ok::<Seq<char>, Error>(hash),
            None => Err::<Seq<char>, Error>(Error::FailedToHashPassword),
        },
        r is Ok ==> phc_valid(r->Ok_0@) && argon2_accepts(r->Ok_0@, password@),
{
    match argon2_hash(password, salt) {
        Some(hash) => Ok(hash),
        None => Err(Error::FailedToHashPassword),
    }
}

/// Hashes `password` with a salt that is drawn at random. Whatever the
/// salt, a hash that comes out is one that `password` verifies against; the
/// only error is `FailedToHashPassword`.
pub fn compute_password_hash(password: &str) -> (r: Result<String, Error>)
    ensures
        r is Ok ==> phc_valid(r->Ok_0@) && argon2_accepts(r->Ok_0@, password@),
        r is Err ==> r->Err_0 == Error::FailedToHashPassword,
{
    let salt = fresh_salt();
    hash_with_salt(password, salt.as_str())
}

/// Decides whether the client that gave `credentials` is the user that the
/// store holds under that name.
///
/// `stored` is the store's answer to the question for the user of that
/// name. An error of the store is passed on as `UserAction`; a user whose
/// stored hash the password verifies against is authenticated as that
/// user's identity.
pub fn validate_credentials(credentials: &Credentials, stored: Result<User, crate::db::Error>) -> (r: Result<ClientId, Error>)
    ensures
        match stored {
            Err(e) => r == Err::<ClientId, Error>(Error::UserAction(e)),
            Ok(user) => if !phc_valid(user.password@) {
                r == Err::<ClientId, Error>(Error::FailedToParsePasswordHash)
            } else if argon2_accepts(user.password@, credentials.password@) {
                r == Ok::<ClientId, Error>(user.uuid)
            } else {
                r == Err::<ClientId, Error>(
                    Error::InvalidCredentials(InvalidCredentials::WrongPassword),
                )
            },
        },
{
    match stored {
        Err(e) => Err(Error::UserAction(e)),
        Ok(user) => match verify_password_hash(user.password.as_str(), credentials.password.as_str()) {
            Ok(_) => Ok(user.uuid),
            Err(e) => Err(e),
        },
    }
}

} // verus!
