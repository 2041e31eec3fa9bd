//! Internal and external users, and their validated credentials.
use vstd::prelude::*;

use crate::id::mint_id;
use crate::validation::{
    ascii_verdict, check_ascii, check_email, check_length, email_problem, email_verdict,
    is_strong_password, length_verdict, strength_verdict, ValidationError,
};

verus! {

/// User unique identifier.
pub type ID = u128;

/// Shortest password, in characters.
pub const PASSWORD_MIN: usize = 8;

/// Shortest external id, in characters.
pub const EXTERNAL_ID_MIN: usize = 1;

/// A login: an email address that garde's email rule accepts.
#[derive(Debug, PartialEq, Eq)]
pub struct Login {
    value: String,
}

impl View for Login {
    type V = Seq<char>;

    closed spec fn view(&self) -> Seq<char> {
        self.value@
    }
}

impl Login {
    /// Validates `value` as a login.
    pub fn new(value: &str) -> (r: Result<Login, ValidationError>)
        ensures
            r is Ok <==> email_problem(value@) is None,
            r matches Ok(l) ==> l@ == value@,
            r matches Err(e) ==> email_verdict(value@, Err(e)),
    {
        match check_email(value) {
            Ok(()) => Ok(Login { value: value.to_owned() }),
            Err(e) => Err(e),
        }
    }

    /// The login as text.
    pub fn as_str(&self) -> (r: &str)
        ensures
            r@ == self@,
    {
        self.value.as_str()
    }
}

/// The verdict on a password: the first refusal of the strength rule, the
/// ASCII rule and the length rule, in that order.
pub open spec fn password_verdict(s: Seq<char>) -> Result<(), ValidationError> {
    if strength_verdict(s) is Err {
        strength_verdict(s)
    } else if ascii_verdict(s) is Err {
        ascii_verdict(s)
    } else {
        length_verdict(s.len(), PASSWORD_MIN, usize::MAX)
    }
}

/// A password: ASCII, at least 8 characters, with a letter, a digit and a
/// punctuation character.
#[derive(Debug, PartialEq, Eq)]
pub struct Password {
    value: String,
}

impl View for Password {
    type V = Seq<char>;

    closed spec fn view(&self) -> Seq<char> {
        self.value@
    }
}

impl Password {
    /// Validates `value` as a password.
    pub fn new(value: &str) -> (r: Result<Password, ValidationError>)
        ensures
            r is Ok <==> password_verdict(value@) is Ok,
            r matches Ok(p) ==> p@ == value@,
            r matches Err(e) ==> Err::<(), ValidationError>(e) == password_verdict(value@),
    {
        if let Err(e) = is_strong_password(value) {
            return Err(e);
        }
        if let Err(e) = check_ascii(value) {
            return Err(e);
        }
        match check_length(value, PASSWORD_MIN, usize::MAX) {
            Ok(()) => Ok(Password { value: value.to_owned() }),
            Err(e) => Err(e),
        }
    }

    /// The password as text.
    pub fn as_str(&self) -> (r: &str)
        ensures
            r@ == self@,
    {
        self.value.as_str()
    }
}

/// The id a user has with an external identity provider: not empty.
#[derive(Debug, PartialEq, Eq)]
pub struct ExternalID {
    value: String,
}

impl View for ExternalID {
    type V = Seq<char>;

    closed spec fn view(&self) -> Seq<char> {
        self.value@
    }
}

impl ExternalID {
    /// Validates `value` as an external id.
    pub fn new(value: &str) -> (r: Result<ExternalID, ValidationError>)
        ensures
            r is Ok <==> length_verdict(value@.len(), EXTERNAL_ID_MIN, usize::MAX) is Ok,
            r matches Ok(x) ==> x@ == value@,
            r matches Err(e) ==> Err::<(), ValidationError>(e) == length_verdict(
                value@.len(),
                EXTERNAL_ID_MIN,
                usize::MAX,
            ),
    {
        match check_length(value, EXTERNAL_ID_MIN, usize::MAX) {
            Ok(()) => Ok(ExternalID { value: value.to_owned() }),
            Err(e) => Err(e),
        }
    }

    /// The external id as text.
    pub fn as_str(&self) -> (r: &str)
        ensures
            r@ == self@,
    {
        self.value.as_str()
    }
}

/// What a user may do.
#[derive(Debug, Clone, Copy, PartialEq, Eq, Structural)]
pub enum Role {
    Admin,
    User,
}

/// A user who signs in with a login and a password.
#[derive(Debug)]
pub struct InternalUser {
    pub id: ID,
    pub login: Login,
    pub password: Password,
    pub role: Role,
}

impl InternalUser {
    /// A new internal user under a freshly minted id.
    pub fn new(login: Login, password: Password, role: Role) -> (r: InternalUser)
        ensures
            r.login@ == login@,
            r.password@ == password@,
            r.role == role,
    {
        InternalUser { id: mint_id(), login, password, role }
    }
}

/// A user known through an external identity provider.
#[derive(Debug)]
pub struct ExternalUser {
    pub id: ID,
    pub external_id: ExternalID,
    pub role: Role,
}

impl ExternalUser {
    /// A new external user under a freshly minted id.
    pub fn new(external_id: ExternalID, role: Role) -> (r: ExternalUser)
        ensures
            r.external_id@ == external_id@,
            r.role == role,
    {
        ExternalUser { id: mint_id(), external_id, role }
    }
}

} // verus!
