//! Account creation: the request must carry the administrators' password and
//! three permission flags written `true` or `false`.
use vstd::prelude::*;

use crate::text::{contains_seq, contains_text, str_eq};

verus! {

/// The account creation form.
pub struct UserRequestCreate {
    pub passcreate: String,
    pub username: String,
    pub can_write: String,
    pub can_read: String,
    pub is_admin: String,
}

/// How an account request is answered.
#[derive(PartialEq, Eq, Structural, Clone, Copy, Debug)]
pub enum NewUserReply {
    WrongPassword,
    BadCanRead,
    BadCanWrite,
    BadIsAdmin,
    Created,
    NameTaken,
    DbFailure,
    Unexpected,
}

impl NewUserReply {
    /// The text of the answer.
    pub open spec fn text(self) -> Seq<char> {
        match self {
            NewUserReply::WrongPassword => "Invalid admin password, please contact Philip for password."@,
            NewUserReply::BadCanRead => "Invalid form: can_read must be 'true' or 'false'."@,
            NewUserReply::BadCanWrite => "Invalid form: can_write must be 'true' or 'false'."@,
            NewUserReply::BadIsAdmin => "Invalid form: is admin must be 'true' or 'false'."@,
            NewUserReply::Created => "User created successfully."@,
            NewUserReply::NameTaken => "Username already taken. Please choose another one."@,
            NewUserReply::DbFailure => "Database error occurred. Please try again."@,
            NewUserReply::Unexpected => "Unexpected error occurred. Please try again."@,
        }
    }

    pub fn message(&self) -> (r: &'static str)
        ensures
            r@ == self.text(),
    {
        match self {
            NewUserReply::WrongPassword => "Invalid admin password, please contact Philip for password.",
            NewUserReply::BadCanRead => "Invalid form: can_read must be 'true' or 'false'.",
            NewUserReply::BadCanWrite => "Invalid form: can_write must be 'true' or 'false'.",
            NewUserReply::BadIsAdmin => "Invalid form: is admin must be 'true' or 'false'.",
            NewUserReply::Created => "User created successfully.",
            NewUserReply::NameTaken => "Username already taken. Please choose another one.",
            NewUserReply::DbFailure => "Database error occurred. Please try again.",
            NewUserReply::Unexpected => "Unexpected error occurred. Please try again.",
        }
    }
}

/// The permissions of a new account.
#[derive(PartialEq, Eq, Structural, Clone, Copy, Debug)]
pub struct NewUserFlags {
    pub can_read: bool,
    pub can_write: bool,
    pub is_admin: bool,
}

/// A permission flag: `true` or `false`, nothing else.
pub open spec fn flag_value(text: Seq<char>) -> Option<bool> {
    if text == "true"@ {
        Some(true)
    } else if text == "false"@ {
        Some(false)
    } else {
        None
    }
}

fn parse_flag(text: &str) -> (r: Option<bool>)
    ensures
        r == flag_value(text@),
{
    if str_eq(text, "true") {
        Some(true)
    } else if str_eq(text, "false") {
        Some(false)
    } else {
        None
    }
}

/// The answer to an account request before anything is stored: the
/// password is checked first, then `can_read`, `can_write` and `is_admin`.
pub open spec fn new_user_check(form: UserRequestCreate) -> Result<NewUserFlags, NewUserReply> {
    if form.passcreate@ != "VerySexyPass"@ {
        Err(NewUserReply::WrongPassword)
    } else {
        match (flag_value(form.can_read@), flag_value(form.can_write@), flag_value(form.is_admin@)) {
            (None, _, _) => Err(NewUserReply::BadCanRead),
            (Some(_), None, _) => Err(NewUserReply::BadCanWrite),
            (Some(_), Some(_), None) => Err(NewUserReply::BadIsAdmin),
            (Some(r), Some(w), Some(a)) => Ok(NewUserFlags { can_read: r, can_write: w, is_admin: a }),
        }
    }
}

/// Checks an account request and reads its permissions.
pub fn new_user_flags(form: &UserRequestCreate) -> (r: Result<NewUserFlags, NewUserReply>)
    ensures
        r == new_user_check(*form),
        r matches Ok(flags) ==> flags.can_read == (form.can_read@ == "true"@)
            && flags.can_write == (form.can_write@ == "true"@)
            && flags.is_admin == (form.is_admin@ == "true"@),
{
    proof {
        lemma_account_flags_follow_their_fields(*form);
    }
    if !str_eq(form.passcreate.as_str(), "VerySexyPass") {
        return Err(NewUserReply::WrongPassword);
    }
    let can_read = match parse_flag(form.can_read.as_str()) {
        Some(b) => b,
        None => {
            return Err(NewUserReply::BadCanRead);
        },
    };
    let can_write = match parse_flag(form.can_write.as_str()) {
        Some(b) => b,
        None => {
            return Err(NewUserReply::BadCanWrite);
        },
    };
    let is_admin = match parse_flag(form.is_admin.as_str()) {
        Some(b) => b,
        None => {
            return Err(NewUserReply::BadIsAdmin);
        },
    };
    Ok(NewUserFlags { can_read, can_write, is_admin })
}

/// Why storing an account failed: the database's own error with its text,
/// or another failure.
pub enum InsertFailure {
    Database(String),
    Other,
}

/// The answer once the account was stored, or not: a database error that
/// mentions a failed unique constraint means the name is taken.
pub open spec fn insert_reply(result: Result<(), InsertFailure>) -> NewUserReply {
    match result {
        Ok(_) => NewUserReply::Created,
        Err(InsertFailure::Database(text)) => if contains_seq(text@, "UNIQUE constraint failed"@) {
            NewUserReply::NameTaken
        } else {
            NewUserReply::DbFailure
        },
        Err(InsertFailure::Other) => NewUserReply::Unexpected,
    }
}

/// The answer once the account was stored, or not.
pub fn new_user_reply(result: Result<(), InsertFailure>) -> (r: NewUserReply)
    ensures
        r == insert_reply(result),
{
    match result {
        Ok(_) => NewUserReply::Created,
        Err(InsertFailure::Database(text)) => {
            if contains_text(text.as_str(), "UNIQUE constraint failed") {
                NewUserReply::NameTaken
            } else {
                NewUserReply::DbFailure
            }
        },
        Err(InsertFailure::Other) => NewUserReply::Unexpected,
    }
}

/// An account is stored only for a request that carries the administrators'
/// password and whose three permission flags are each `true` or `false`.
pub proof fn lemma_account_needs_password_and_flags(form: UserRequestCreate)
    requires
        new_user_check(form) is Ok,
    ensures
        form.passcreate@ == "VerySexyPass"@,
        flag_value(form.can_read@) is Some,
        flag_value(form.can_write@) is Some,
        flag_value(form.is_admin@) is Some,
{
}

/// An accepted account request grants exactly the permissions it asks for,
/// each flag read from its own field: `true` where that field reads `true`,
/// `false` where it reads `false`. A request with the administrators'
/// password and each flag written `true` or `false` is accepted.
pub proof fn lemma_account_flags_follow_their_fields(form: UserRequestCreate)
    ensures
        new_user_check(form) matches Ok(flags) ==> flags.can_read == (form.can_read@ == "true"@)
            && flags.can_write == (form.can_write@ == "true"@)
            && flags.is_admin == (form.is_admin@ == "true"@),
        form.passcreate@ == "VerySexyPass"@
            && (form.can_read@ == "true"@ || form.can_read@ == "false"@)
            && (form.can_write@ == "true"@ || form.can_write@ == "false"@)
            && (form.is_admin@ == "true"@ || form.is_admin@ == "false"@)
            ==> new_user_check(form) is Ok,
{
    reveal_strlit("true");
    reveal_strlit("false");
    assert("true"@ != "false"@) by {
        assert("true"@.len() != "false"@.len());
    }
}

} // verus!
