//! The Blue Alliance's simple match listing, as the result check reads it:
//! with set numbers and alliance scores.
use vstd::prelude::*;

verus! {

/// One listed match.
pub struct TbaMatch {
    pub comp_level: String,
    pub match_number: i32,
    pub set_number: i32,
    pub alliances: Alliances,
}

pub struct Alliances {
    pub red: Alliance,
    pub blue: Alliance,
}

/// An alliance: its score once played, and its team keys.
pub struct Alliance {
    pub score: Option<i32>,
    pub team_keys: Vec<String>,
}

} // verus!
