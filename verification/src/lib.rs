//! Match-scouting service logic: scoring, form normalisation, access gates
//! and the decision steps of each request handler, with their contracts.
#![allow(non_snake_case)]
#![allow(non_upper_case_globals)]
#![allow(non_camel_case_types)]
use vstd::prelude::*;

use crate::access::{decide_access, parse_user_id, uuid_from_text, access_of, Access, Lookup};
use crate::submit::fits_i32;

pub mod access;
pub mod blue;
pub mod from;
pub mod get_player_match;
pub mod login;
pub mod pit;
pub mod queue;
pub mod remove_queue;
pub mod scout;
pub mod search;
pub mod submission;
pub mod submit;
pub mod submit_bad;
pub mod text;
pub mod user;
pub mod viewpit;

verus! {

/// A scouting report as the scouting form posts it.
pub struct ScoutingForm {
    // Metadata
    pub team: i32,
    pub matchid: i32,
    pub event_code: String,
    pub tournament_level: String,
    pub station: String,
    /// The `match_teams` row that this report covers.
    pub id: i32,
    // Auto
    pub moved: String,
    pub auto_l1: i32,
    pub auto_l2: i32,
    pub auto_l3: i32,
    pub auto_l4: i32,
    pub auto_algae_processor: i32,
    pub auto_algae_barge: i32,
    pub auto_algae_remove: i32,
    // Teleop
    pub teleop_l1: i32,
    pub teleop_l2: i32,
    pub teleop_l3: i32,
    pub teleop_l4: i32,
    pub teleop_algae_processor: i32,
    pub teleop_algae_barge: i32,
    pub teleop_algae_remove: i32,
    // Endgame
    pub died: String,
    pub defense_rating: i32,
    pub climb_type: String,
    pub comment: String,
}

/// A stored scouting report joined with its auto, teleop and endgame rows;
/// the detail values are missing where a detail row is missing.
pub struct ScoutingEntry {
    pub id: i64,
    pub team: i32,
    pub user: Option<String>,
    pub matchid: i32,
    pub total_score: i32,
    pub created_at: String,
    pub event_code: Option<String>,
    pub moved: bool,
    pub auto_l1: Option<i32>,
    pub auto_l2: Option<i32>,
    pub auto_l3: Option<i32>,
    pub auto_l4: Option<i32>,
    pub auto_algae_processor: Option<i32>,
    pub auto_algae_barge: Option<i32>,
    pub auto_algae_remove: Option<i32>,
    pub teleop_l1: Option<i32>,
    pub teleop_l2: Option<i32>,
    pub teleop_l3: Option<i32>,
    pub teleop_l4: Option<i32>,
    pub teleop_algae_processor: Option<i32>,
    pub teleop_algae_barge: Option<i32>,
    pub teleop_algae_remove: Option<i32>,
    pub died: bool,
    pub defense_rating: Option<i32>,
    pub climb_type: Option<String>,
    pub comment: Option<String>,
}

/// The fourteen game-piece counts of a report, auto then teleop.
pub open spec fn piece_counts(e: ScoutingEntry) -> Seq<Option<i32>> {
    seq![
        e.auto_l1, e.auto_l2, e.auto_l3, e.auto_l4,
        e.auto_algae_processor, e.auto_algae_barge, e.auto_algae_remove,
        e.teleop_l1, e.teleop_l2, e.teleop_l3, e.teleop_l4,
        e.teleop_algae_processor, e.teleop_algae_barge, e.teleop_algae_remove,
    ]
}

/// The sum of a list of present counts.
pub open spec fn count_total(s: Seq<Option<i32>>) -> int
    decreases s.len(),
{
    if s.len() == 0 {
        0
    } else {
        count_total(s.drop_last()) + s.last()->0
    }
}

/// Every count is present, and adding them left to right in `i32` stays in
/// range at every step.
pub open spec fn counts_summable(s: Seq<Option<i32>>) -> bool {
    &&& forall|i: int| 0 <= i < s.len() ==> (#[trigger] s[i]) is Some
    &&& forall|k: int| 1 <= k <= s.len() ==> fits_i32(#[trigger] count_total(s.take(k)))
}

fn counts_of(e: &ScoutingEntry) -> (v: Vec<Option<i32>>)
    ensures
        v@ == piece_counts(*e),
{
    let v = vec![
        e.auto_l1, e.auto_l2, e.auto_l3, e.auto_l4,
        e.auto_algae_processor, e.auto_algae_barge, e.auto_algae_remove,
        e.teleop_l1, e.teleop_l2, e.teleop_l3, e.teleop_l4,
        e.teleop_algae_processor, e.teleop_algae_barge, e.teleop_algae_remove,
    ];
    assert(v@ =~= piece_counts(*e));
    v
}

/// The game-piece count of a report is the sum of its fourteen counts, each
/// counted once: coral on levels 1 to 4 and algae processed, put in the
/// barge and removed, in auto and in teleop.
pub proof fn lemma_piece_count_is_field_sum(e: ScoutingEntry)
    requires
        e.auto_l1 is Some,
        e.auto_l2 is Some,
        e.auto_l3 is Some,
        e.auto_l4 is Some,
        e.auto_algae_processor is Some,
        e.auto_algae_barge is Some,
        e.auto_algae_remove is Some,
        e.teleop_l1 is Some,
        e.teleop_l2 is Some,
        e.teleop_l3 is Some,
        e.teleop_l4 is Some,
        e.teleop_algae_processor is Some,
        e.teleop_algae_barge is Some,
        e.teleop_algae_remove is Some,
    ensures
        count_total(piece_counts(e)) == e.auto_l1->0 + e.auto_l2->0 + e.auto_l3->0
            + e.auto_l4->0 + e.auto_algae_processor->0 + e.auto_algae_barge->0
            + e.auto_algae_remove->0 + e.teleop_l1->0 + e.teleop_l2->0
            + e.teleop_l3->0 + e.teleop_l4->0 + e.teleop_algae_processor->0
            + e.teleop_algae_barge->0 + e.teleop_algae_remove->0,
{
    let s = piece_counts(e);
    reveal_with_fuel(count_total, 15);
    assert(s.drop_last() =~= s.take(13));
}

/// A report is countable only when none of its fourteen counts is missing.
pub proof fn lemma_countable_needs_every_count(e: ScoutingEntry)
    requires
        counts_summable(piece_counts(e)),
    ensures
        e.auto_l1 is Some,
        e.auto_l2 is Some,
        e.auto_l3 is Some,
        e.auto_l4 is Some,
        e.auto_algae_processor is Some,
        e.auto_algae_barge is Some,
        e.auto_algae_remove is Some,
        e.teleop_l1 is Some,
        e.teleop_l2 is Some,
        e.teleop_l3 is Some,
        e.teleop_l4 is Some,
        e.teleop_algae_processor is Some,
        e.teleop_algae_barge is Some,
        e.teleop_algae_remove is Some,
{
    let s = piece_counts(e);
    assert(s[0] is Some);
    assert(s[1] is Some);
    assert(s[2] is Some);
    assert(s[3] is Some);
    assert(s[4] is Some);
    assert(s[5] is Some);
    assert(s[6] is Some);
    assert(s[7] is Some);
    assert(s[8] is Some);
    assert(s[9] is Some);
    assert(s[10] is Some);
    assert(s[11] is Some);
    assert(s[12] is Some);
    assert(s[13] is Some);
}

/// Whether `game_piece_count` can count this report: all counts present and
/// their sum computable in `i32`.
pub fn game_piece_countable(e: &ScoutingEntry) -> (r: bool)
    ensures
        r == counts_summable(piece_counts(*e)),
        r ==> (e.auto_l1 is Some && e.auto_l2 is Some && e.auto_l3 is Some
            && e.auto_l4 is Some && e.auto_algae_processor is Some && e.auto_algae_barge is Some
            && e.auto_algae_remove is Some && e.teleop_l1 is Some && e.teleop_l2 is Some
            && e.teleop_l3 is Some && e.teleop_l4 is Some && e.teleop_algae_processor is Some
            && e.teleop_algae_barge is Some && e.teleop_algae_remove is Some),
{
    proof {
        if counts_summable(piece_counts(*e)) {
            lemma_countable_needs_every_count(*e);
        }
    }
    let v = counts_of(e);
    let ghost s = v@;
    let mut total: i64 = 0;
    let mut i: usize = 0;
    while i < v.len()
        invariant
            s == v@,
            s == piece_counts(*e),
            s.len() == 14,
            i <= 14,
            forall|j: int| 0 <= j < i ==> (#[trigger] s[j]) is Some,
            forall|k: int| 1 <= k <= i ==> fits_i32(#[trigger] count_total(s.take(k))),
            total as int == count_total(s.take(i as int)),
            i32::MIN <= total <= i32::MAX,
        decreases 14 - i,
    {
        assert(s.take(i + 1).drop_last() =~= s.take(i as int));
        match v[i] {
            None => {
                assert(!counts_summable(s)) by {
                    assert(!(s[i as int] is Some));
                }
                return false;
            },
            Some(c) => {
                total = total + c as i64;
                assert(count_total(s.take(i + 1)) == count_total(s.take(i as int)) + s[i as int]->0);
                if total < -2147483648 || total > 2147483647 {
                    assert(!counts_summable(s)) by {
                        assert(!fits_i32(count_total(s.take(i + 1))));
                    }
                    return false;
                }
            },
        }
        i = i + 1;
    }
    true
}

/// The number of game pieces a report records: the sum of its fourteen
/// counts.
pub fn game_piece_count(e: &ScoutingEntry) -> (r: i32)
    requires
        counts_summable(piece_counts(*e)),
    ensures
        r as int == count_total(piece_counts(*e)),
        r as int == e.auto_l1->0 + e.auto_l2->0 + e.auto_l3->0
            + e.auto_l4->0 + e.auto_algae_processor->0 + e.auto_algae_barge->0
            + e.auto_algae_remove->0 + e.teleop_l1->0 + e.teleop_l2->0
            + e.teleop_l3->0 + e.teleop_l4->0 + e.teleop_algae_processor->0
            + e.teleop_algae_barge->0 + e.teleop_algae_remove->0,
{
    proof {
        let s = piece_counts(*e);
        assert(s[0] is Some);
        assert(s[1] is Some);
        assert(s[2] is Some);
        assert(s[3] is Some);
        assert(s[4] is Some);
        assert(s[5] is Some);
        assert(s[6] is Some);
        assert(s[7] is Some);
        assert(s[8] is Some);
        assert(s[9] is Some);
        assert(s[10] is Some);
        assert(s[11] is Some);
        assert(s[12] is Some);
        assert(s[13] is Some);
        lemma_piece_count_is_field_sum(*e);
    }
    let v = counts_of(e);
    let ghost s = v@;
    let mut total: i32 = 0;
    let mut i: usize = 0;
    while i < v.len()
        invariant
            s == v@,
            s.len() == 14,
            i <= 14,
            counts_summable(s),
            total as int == count_total(s.take(i as int)),
        decreases 14 - i,
    {
        assert(s.take(i + 1).drop_last() =~= s.take(i as int));
        assert(s[i as int] is Some);
        assert(fits_i32(count_total(s.take(i + 1))));
        let c = v[i].unwrap();
        total = total + c;
        i = i + 1;
    }
    assert(s.take(14) =~= s);
    total
}

/// The game-piece counts of a list of reports, in order.
pub fn game_piece_counts(entries: &Vec<ScoutingEntry>) -> (r: Vec<i32>)
    requires
        forall|i: int| 0 <= i < entries@.len() ==> counts_summable(piece_counts(#[trigger] entries@[i])),
    ensures
        r@.len() == entries@.len(),
        forall|i: int| 0 <= i < entries@.len() ==> #[trigger] r@[i] as int == count_total(piece_counts(entries@[i])),
{
    let mut out: Vec<i32> = Vec::new();
    let mut i: usize = 0;
    while i < entries.len()
        invariant
            i <= entries@.len(),
            out@.len() == i,
            forall|j: int| 0 <= j < entries@.len() ==> counts_summable(piece_counts(#[trigger] entries@[j])),
            forall|j: int| 0 <= j < i ==> #[trigger] out@[j] as int == count_total(piece_counts(entries@[j])),
        decreases entries@.len() - i,
    {
        out.push(game_piece_count(&entries[i]));
        i = i + 1;
    }
    out
}

/// Refusals of the read-permission check.
#[derive(PartialEq, Eq, Structural, Clone, Copy, Debug)]
pub enum ReadRefusal {
    /// The session text is not a user id: `Not logined`.
    NotLoggedIn,
    /// No user has that id: `No user found`.
    NoUser,
    /// The lookup failed: `Unkown error`.
    Unknown,
    /// The user may not read: the entries page is shown empty.
    NoReadPerms,
}

impl ReadRefusal {
    /// The error text, or `None` for the empty entries page.
    pub open spec fn text(self) -> Option<Seq<char>> {
        match self {
            ReadRefusal::NotLoggedIn => Some("Not logined"@),
            ReadRefusal::NoUser => Some("No user found"@),
            ReadRefusal::Unknown => Some("Unkown error"@),
            ReadRefusal::NoReadPerms => None,
        }
    }

    pub fn message(&self) -> (r: Option<&'static str>)
        ensures
            r matches Some(m) ==> self.text() == Some(m@),
            r is None ==> self.text() is None,
    {
        match self {
            ReadRefusal::NotLoggedIn => Some("Not logined"),
            ReadRefusal::NoUser => Some("No user found"),
            ReadRefusal::Unknown => Some("Unkown error"),
            ReadRefusal::NoReadPerms => None,
        }
    }
}

/// First half of the read-permission check: the user id in the session text.
pub fn check_if_read_id(userid: &str) -> (r: Result<u128, ReadRefusal>)
    ensures
        r == match uuid_from_text(userid@) {
            Some(id) => Ok(id),
            None => Err(ReadRefusal::NotLoggedIn),
        },
{
    match parse_user_id(userid) {
        Some(id) => Ok(id),
        None => Err(ReadRefusal::NotLoggedIn),
    }
}

/// The refusal, if any, that the lookup of a user's `can_read` flag gives.
pub open spec fn read_refusal(flag: Lookup<bool>) -> Option<ReadRefusal> {
    match access_of(flag) {
        Access::Granted => None,
        Access::Forbidden => Some(ReadRefusal::NoReadPerms),
        Access::NoUser => Some(ReadRefusal::NoUser),
        _ => Some(ReadRefusal::Unknown),
    }
}

/// Second half of the read-permission check, from the lookup of `can_read`.
pub fn check_if_read_flag(flag: Lookup<bool>) -> (r: Option<ReadRefusal>)
    ensures
        r == read_refusal(flag),
{
    match decide_access(flag) {
        Access::Granted => None,
        Access::Forbidden => Some(ReadRefusal::NoReadPerms),
        Access::NoUser => Some(ReadRefusal::NoUser),
        _ => Some(ReadRefusal::Unknown),
    }
}

} // verus!
