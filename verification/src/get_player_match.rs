//! One stored report with the pit comment of its team.
use vstd::prelude::*;
use vstd::string::*;

use crate::access::Lookup;

verus! {

/// The pit comment shown beside a report, from the lookup of the team's pit
/// row at the report's event: the comment, `No pit data` where there is no
/// pit row, or the error text `Database Error` when the lookup failed.
pub fn pit_comment(found: Lookup<String>) -> (r: Result<String, &'static str>)
    ensures
        match found {
            Lookup::Found(c) => r == Ok::<String, &'static str>(c),
            Lookup::Missing => r matches Ok(s) && s@ == "No pit data"@,
            Lookup::Failed => r matches Err(m) && m@ == "Database Error"@,
        },
{
    match found {
        Lookup::Found(c) => Ok(c),
        Lookup::Missing => Ok(String::from_str("No pit data")),
        Lookup::Failed => Err("Database Error"),
    }
}

} // verus!
