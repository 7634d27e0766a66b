//! User identification and permission gates: the session cookie carries a
//! user id in UUID text form, and each handler checks one permission flag of
//! the user's row before it does its work.
use vstd::prelude::*;
use std::str::FromStr;

verus! {

#[verifier::external_type_specification]
#[verifier::external_body]
pub struct ExUuidError(uuid::Error);

/// The 128-bit value that `uuid::Uuid::from_str` reads from a text, or `None`
/// where it rejects the text.
pub uninterp spec fn uuid_from_text(text: Seq<char>) -> Option<u128>;

/// Calls `uuid::Uuid::from_str`, which delegates to `Uuid::parse_str`: it
/// accepts the simple, hyphenated, braced and URN forms of a UUID. The
/// contract claims only that the outcome is a function of the text
/// (`uuid_from_text`), and that a success carries the parsed value as
/// `Uuid::as_u128` gives it.
#[verifier::external_body]
fn uuid_parse(text: &str) -> (r: Result<u128, uuid::Error>)
    ensures
        r is Ok <==> uuid_from_text(text@) is Some,
        r matches Ok(v) ==> uuid_from_text(text@) == Some(v),
{
    match uuid::Uuid::from_str(text) {
        Ok(id) => Ok(id.as_u128()),
        Err(e) => Err(e),
    }
}

/// The user id that a session cookie names, if its text is a UUID.
pub fn parse_user_id(text: &str) -> (r: Option<u128>)
    ensures
        r == uuid_from_text(text@),
{
    match uuid_parse(text) {
        Ok(id) => Some(id),
        Err(_) => None,
    }
}

/// What a lookup of one row returned: the row, no row, or a database failure.
pub enum Lookup<T> {
    Found(T),
    Missing,
    Failed,
}

/// The outcome of a permission check on one user.
#[derive(PartialEq, Eq, Structural, Clone, Copy, Debug)]
pub enum Access {
    /// The user exists and holds the permission.
    Granted,
    /// No user has that id.
    NoUser,
    /// The lookup failed.
    DbError,
    /// The user exists without the permission.
    Forbidden,
}

/// The access that a lookup of a user's permission flag grants.
pub open spec fn access_of(flag: Lookup<bool>) -> Access {
    match flag {
        Lookup::Found(true) => Access::Granted,
        Lookup::Found(false) => Access::Forbidden,
        Lookup::Missing => Access::NoUser,
        Lookup::Failed => Access::DbError,
    }
}

/// Decides a permission check from the lookup of the user's flag.
pub fn decide_access(flag: Lookup<bool>) -> (r: Access)
    ensures
        r == access_of(flag),
{
    match flag {
        Lookup::Found(true) => Access::Granted,
        Lookup::Found(false) => Access::Forbidden,
        Lookup::Missing => Access::NoUser,
        Lookup::Failed => Access::DbError,
    }
}

/// Refusals of a write-permission check (scouting pages and submissions).
#[derive(PartialEq, Eq, Structural, Clone, Copy, Debug)]
pub enum WriteRefusal {
    NotLoggedIn,
    NoUser,
    DbError,
    NoWritePerms,
}

impl WriteRefusal {
    /// The text shown for the refusal.
    pub open spec fn text(self) -> Seq<char> {
        match self {
            WriteRefusal::NotLoggedIn => "Not logined in"@,
            WriteRefusal::NoUser => "Can't find user"@,
            WriteRefusal::DbError => "Database Error"@,
            WriteRefusal::NoWritePerms => "You don't have writing perms!"@,
        }
    }

    pub fn message(&self) -> (r: &'static str)
        ensures
            r@ == self.text(),
    {
        match self {
            WriteRefusal::NotLoggedIn => "Not logined in",
            WriteRefusal::NoUser => "Can't find user",
            WriteRefusal::DbError => "Database Error",
            WriteRefusal::NoWritePerms => "You don't have writing perms!",
        }
    }
}

/// The refusal, if any, of a write-permission check whose lookup returned
/// the user's `(can_write, username)`; on success, the username.
pub open spec fn write_gate(row: Lookup<(bool, String)>) -> Result<String, WriteRefusal> {
    match row {
        Lookup::Found((true, name)) => Ok(name),
        Lookup::Found((false, _)) => Err(WriteRefusal::NoWritePerms),
        Lookup::Missing => Err(WriteRefusal::NoUser),
        Lookup::Failed => Err(WriteRefusal::DbError),
    }
}

/// Decides a write-permission check from the user's `(can_write, username)`.
pub fn check_write(row: Lookup<(bool, String)>) -> (r: Result<String, WriteRefusal>)
    ensures
        r == write_gate(row),
{
    match row {
        Lookup::Found((can_write, name)) => {
            if can_write {
                Ok(name)
            } else {
                Err(WriteRefusal::NoWritePerms)
            }
        },
        Lookup::Missing => Err(WriteRefusal::NoUser),
        Lookup::Failed => Err(WriteRefusal::DbError),
    }
}

} // verus!
