//! Clearing the scouting reports: administrators only.
use vstd::prelude::*;

use crate::access::{uuid_from_text, Lookup};
use crate::queue::{admin_refusal, check_if_admin_flag, check_if_admin_id, AdminRefusal};

verus! {

/// How a clearing request ends.
#[derive(PartialEq, Eq, Structural, Clone, Copy, Debug)]
pub enum RemoveReply {
    NotLoggedIn,
    Refused(AdminRefusal),
    DbError,
    Cleared,
}

impl RemoveReply {
    /// The error text, or `None` for the confirmation page.
    pub open spec fn text(self) -> Option<Seq<char>> {
        match self {
            RemoveReply::NotLoggedIn => Some("You are not logined in"@),
            RemoveReply::Refused(r) => Some(r.text()),
            RemoveReply::DbError => Some("Database error"@),
            RemoveReply::Cleared => None,
        }
    }

    pub fn message(&self) -> (r: Option<&'static str>)
        ensures
            r matches Some(m) ==> self.text() == Some(m@),
            r is None ==> self.text() is None,
    {
        match self {
            RemoveReply::NotLoggedIn => Some("You are not logined in"),
            RemoveReply::Refused(r) => Some(r.message()),
            RemoveReply::DbError => Some("Database error"),
            RemoveReply::Cleared => None,
        }
    }
}

/// Start of a clearing request: the user id in the session cookie.
pub fn queue_remove_start(cookie: Option<&str>) -> (r: Result<u128, RemoveReply>)
    ensures
        r == match cookie {
            None => Err(RemoveReply::NotLoggedIn),
            Some(text) => match uuid_from_text(text@) {
                Some(id) => Ok(id),
                None => Err(RemoveReply::Refused(AdminRefusal::NotLoggedIn)),
            },
        },
{
    match cookie {
        None => Err(RemoveReply::NotLoggedIn),
        Some(text) => match check_if_admin_id(text) {
            Ok(id) => Ok(id),
            Err(refusal) => Err(RemoveReply::Refused(refusal)),
        },
    }
}

/// After the `is_admin` lookup: a refusal, or `None` to delete the reports.
pub fn queue_remove_after_admin(flag: Lookup<bool>) -> (r: Option<RemoveReply>)
    ensures
        r == match admin_refusal(flag) {
            Some(refusal) => Some(RemoveReply::Refused(refusal)),
            None => None,
        },
{
    match check_if_admin_flag(flag) {
        Some(refusal) => Some(RemoveReply::Refused(refusal)),
        None => None,
    }
}

/// After the reports were deleted, or not: `Database error`, or `None` to
/// restart the report numbering.
pub fn queue_remove_after_delete(deleted: bool) -> (r: Option<RemoveReply>)
    ensures
        r == if deleted { None } else { Some(RemoveReply::DbError) },
{
    if deleted {
        None
    } else {
        Some(RemoveReply::DbError)
    }
}

/// After the numbering was restarted, or not.
pub fn queue_remove_after_restart(restarted: bool) -> (r: RemoveReply)
    ensures
        r == if restarted { RemoveReply::Cleared } else { RemoveReply::DbError },
{
    if restarted {
        RemoveReply::Cleared
    } else {
        RemoveReply::DbError
    }
}

} // verus!
