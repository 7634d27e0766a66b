//! Login: the user named on the form is looked up, and the page shows their
//! id and permissions.
use vstd::prelude::*;
use vstd::string::*;

use crate::access::Lookup;

verus! {

/// The login form.
pub struct UserRequestLogin {
    pub username: String,
}

/// What the login page shows. On failure every field but the state is
/// empty, and no id is shown.
pub struct LoginView {
    pub state: String,
    pub uuid: Option<u128>,
    pub username: String,
    pub can_read: String,
    pub can_write: String,
    pub is_admin: String,
}

/// A permission as the login page writes it.
pub open spec fn flag_text(flag: bool) -> Seq<char> {
    if flag {
        "true"@
    } else {
        "false"@
    }
}

fn flag_string(flag: bool) -> (r: String)
    ensures
        r@ == flag_text(flag),
{
    if flag {
        String::from_str("true")
    } else {
        String::from_str("false")
    }
}

fn failed_login(state: &str) -> (r: LoginView)
    ensures
        r.state@ == state@,
        r.uuid is None,
        r.username@ == Seq::<char>::empty(),
        r.can_read@ == Seq::<char>::empty(),
        r.can_write@ == Seq::<char>::empty(),
        r.is_admin@ == Seq::<char>::empty(),
{
    LoginView {
        state: String::from_str(state),
        uuid: None,
        username: String::new(),
        can_read: String::new(),
        can_write: String::new(),
        is_admin: String::new(),
    }
}

/// The login page for a user name, from the lookup of the user's
/// `(id, can_read, can_write, is_admin)`.
pub fn login_view(username: &str, row: Lookup<(u128, bool, bool, bool)>) -> (r: LoginView)
    ensures
        match row {
            Lookup::Found((id, can_read, can_write, is_admin)) => {
                &&& r.state@ == "Logined in!"@
                &&& r.uuid == Some(id)
                &&& r.username@ == username@
                &&& r.can_read@ == flag_text(can_read)
                &&& r.can_write@ == flag_text(can_write)
                &&& r.is_admin@ == flag_text(is_admin)
            },
            Lookup::Missing => r.state@ == "No user found"@ && r.uuid is None && r.username@.len()
                == 0 && r.can_read@.len() == 0 && r.can_write@.len() == 0 && r.is_admin@.len() == 0,
            Lookup::Failed => r.state@ == "Database Error"@ && r.uuid is None && r.username@.len()
                == 0 && r.can_read@.len() == 0 && r.can_write@.len() == 0 && r.is_admin@.len() == 0,
        },
{
    match row {
        Lookup::Found((id, can_read, can_write, is_admin)) => LoginView {
            state: String::from_str("Logined in!"),
            uuid: Some(id),
            username: String::from_str(username),
            can_read: flag_string(can_read),
            can_write: flag_string(can_write),
            is_admin: flag_string(is_admin),
        },
        Lookup::Missing => failed_login("No user found"),
        Lookup::Failed => failed_login("Database Error"),
    }
}

} // verus!
