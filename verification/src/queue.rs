//! Match-queue import: the schedule of an event as The Blue Alliance lists it
//! is turned into the service's own match records, and only administrators
//! may import it.
#![allow(non_snake_case)]
use vstd::prelude::*;
use vstd::string::*;

use crate::access::{decide_access, parse_user_id, access_of, uuid_from_text, Access, Lookup};
use crate::text::{decimal, decimal_text, has_prefix, decimal_u32, parse_u32, signed_decimal, signed_decimal_text, str_eq, strip_prefix};

verus! {

/// One match as The Blue Alliance's simple match listing gives it.
pub struct TbaMatch {
    pub comp_level: String,
    pub match_number: i32,
    pub alliances: Alliances,
}

pub struct Alliances {
    pub red: Alliance,
    pub blue: Alliance,
}

/// The team keys of one alliance, such as `frc254`.
pub struct Alliance {
    pub team_keys: Vec<String>,
}

/// The schedule to be stored for one event.
pub struct ScheduleData {
    pub Schedule: Vec<Match>,
}

/// One match of the queue.
pub struct Match {
    pub description: String,
    pub matchNumber: i32,
    pub tournamentLevel: String,
    pub teams: Vec<Team>,
}

/// One team of a match and the station it plays from (`Red1` to `Blue3`).
pub struct Team {
    pub teamNumber: u32,
    pub station: String,
}

impl View for Team {
    type V = (u32, Seq<char>);

    open spec fn view(&self) -> (u32, Seq<char>) {
        (self.teamNumber, self.station@)
    }
}

/// The team number in a key of the form `frc<number>`.
pub open spec fn team_number_of_key(key: Seq<char>) -> Option<u32> {
    if has_prefix(key, "frc"@) {
        decimal_u32(key.subrange("frc"@.len() as int, key.len() as int))
    } else {
        None
    }
}

/// The teams of the first `n` keys of an alliance whose key names a team,
/// each at the station named by the alliance colour and the key's position
/// counted from one.
pub open spec fn alliance_teams(keys: Seq<Seq<char>>, colour: Seq<char>, n: int) -> Seq<
    (u32, Seq<char>),
>
    decreases n,
{
    if n <= 0 {
        seq![]
    } else {
        let before = alliance_teams(keys, colour, n - 1);
        match team_number_of_key(keys[n - 1]) {
            Some(number) => before.push((number, colour + decimal(n as nat))),
            None => before,
        }
    }
}

/// The level name of a competition level code: `qm` is a qualification
/// match, everything else a playoff match.
pub open spec fn level_name(comp_level: Seq<char>) -> Seq<char> {
    if comp_level == "qm"@ {
        "Qualification"@
    } else {
        "Playoff"@
    }
}

/// The teams of a listed match: red alliance first, then blue.
pub open spec fn match_teams(tba: TbaMatch) -> Seq<(u32, Seq<char>)> {
    let red = tba.alliances.red.team_keys.deep_view();
    let blue = tba.alliances.blue.team_keys.deep_view();
    alliance_teams(red, "Red"@, red.len() as int) + alliance_teams(blue, "Blue"@, blue.len() as int)
}

/// The views of a list of teams.
pub open spec fn team_views(teams: Seq<Team>) -> Seq<(u32, Seq<char>)> {
    teams.map_values(|t: Team| t@)
}

/// `m` is the queue record of the listed match `tba`.
pub open spec fn converted_match(tba: TbaMatch, m: Match) -> bool {
    let level = level_name(tba.comp_level@);
    &&& m.description@ == level + " "@ + signed_decimal(tba.match_number as int)
    &&& m.matchNumber == tba.match_number
    &&& m.tournamentLevel@ == level
    &&& team_views(m.teams@) == match_teams(tba)
}

/// Appends the teams of one alliance, stationed by `colour`.
fn push_alliance(teams: &mut Vec<Team>, keys: &Vec<String>, colour: &str)
    ensures
        team_views(final(teams)@) == team_views(old(teams)@) + alliance_teams(
            keys.deep_view(),
            colour@,
            keys.len() as int,
        ),
{
    let ghost start = team_views(teams@);
    let mut i: usize = 0;
    while i < keys.len()
        invariant
            i <= keys.len(),
            team_views(teams@) == start + alliance_teams(keys.deep_view(), colour@, i as int),
        decreases keys.len() - i,
    {
        let key = &keys[i];
        assert(keys.deep_view()[i as int] == key@);
        proof { reveal_strlit("frc"); }
        let ghost before = teams@;
        match strip_prefix(key.as_str(), "frc") {
            Some(rest) => {
                match parse_u32(rest) {
                    Some(number) => {
                        let station = String::from_str(colour).concat(decimal_text((i + 1) as u64).as_str());
                        teams.push(Team { teamNumber: number, station });
                        assert(team_views(teams@) =~= team_views(before).push((number, colour@ + decimal((i + 1) as nat))));
                    },
                    None => {},
                }
            },
            None => {},
        }
        i = i + 1;
    }
}

impl Match {
    /// The queue record of a listed match: its level name, a description made
    /// of the level name and the match number, and its teams, red first.
    pub fn from(tba: &TbaMatch) -> (m: Match)
        ensures
            converted_match(*tba, m),
    {
        let mut teams: Vec<Team> = Vec::new();
        assert(team_views(teams@) =~= seq![]);
        push_alliance(&mut teams, &tba.alliances.red.team_keys, "Red");
        push_alliance(&mut teams, &tba.alliances.blue.team_keys, "Blue");
        let level = if str_eq(tba.comp_level.as_str(), "qm") {
            String::from_str("Qualification")
        } else {
            String::from_str("Playoff")
        };
        let description = level.clone().concat(" ").concat(signed_decimal_text(tba.match_number).as_str());
        Match {
            description,
            matchNumber: tba.match_number,
            tournamentLevel: level,
            teams,
        }
    }
}

/// The schedule for a listing: each listed match converted, in order.
pub fn schedule_from(listing: &Vec<TbaMatch>) -> (s: ScheduleData)
    ensures
        s.Schedule@.len() == listing@.len(),
        forall|i: int| 0 <= i < listing@.len() ==> converted_match(listing@[i], #[trigger] s.Schedule@[i]),
{
    let mut out: Vec<Match> = Vec::new();
    let mut i: usize = 0;
    while i < listing.len()
        invariant
            i <= listing.len(),
            out@.len() == i,
            forall|j: int| 0 <= j < i ==> converted_match(listing@[j], #[trigger] out@[j]),
        decreases listing.len() - i,
    {
        out.push(Match::from(&listing[i]));
        i = i + 1;
    }
    ScheduleData { Schedule: out }
}

/// No team is invented: each team of an alliance comes from one of its keys
/// of the form `frc<number>`, at the station numbered by that key's
/// position, and an alliance has at most as many teams as keys.
pub proof fn lemma_alliance_teams_come_from_keys(keys: Seq<Seq<char>>, colour: Seq<char>, n: int)
    requires
        0 <= n <= keys.len(),
    ensures
        alliance_teams(keys, colour, n).len() <= n,
        forall|j: int|
            0 <= j < alliance_teams(keys, colour, n).len() ==> exists|i: int|
                0 <= i < n && team_number_of_key(keys[i]) == Some(
                    (#[trigger] alliance_teams(keys, colour, n)[j]).0,
                ) && alliance_teams(keys, colour, n)[j].1 == colour + decimal((i + 1) as nat),
    decreases n,
{
    if n > 0 {
        lemma_alliance_teams_come_from_keys(keys, colour, n - 1);
        let before = alliance_teams(keys, colour, n - 1);
        let now = alliance_teams(keys, colour, n);
        assert forall|j: int| 0 <= j < now.len() implies exists|i: int|
            0 <= i < n && team_number_of_key(keys[i]) == Some((#[trigger] now[j]).0) && now[j].1 == colour
                + decimal((i + 1) as nat) by {
            if j < before.len() {
                assert(now[j] == before[j]);
                let i = choose|i: int|
                    0 <= i < n - 1 && team_number_of_key(keys[i]) == Some((#[trigger] before[j]).0)
                        && before[j].1 == colour + decimal((i + 1) as nat);
            } else {
                assert(team_number_of_key(keys[n - 1]) is Some);
                assert(now[j] == (team_number_of_key(keys[n - 1])->0, colour + decimal(n as nat)));
            }
        }
    }
}

/// The address of The Blue Alliance's simple match listing for an event.
pub open spec fn tba_matches_url(event_code: Seq<char>) -> Seq<char> {
    "https://www.thebluealliance.com/api/v3/event/"@ + event_code + "/matches/simple"@
}

/// The address that `pull_from_blue` requests for an event.
pub fn matches_url(event_code: &str) -> (r: String)
    ensures
        r@ == tba_matches_url(event_code@),
{
    String::from_str("https://www.thebluealliance.com/api/v3/event/").concat(event_code).concat(
        "/matches/simple",
    )
}

/// Refusals of the administrator check.
#[derive(PartialEq, Eq, Structural, Clone, Copy, Debug)]
pub enum AdminRefusal {
    /// The session text is not a user id.
    NotLoggedIn,
    /// No such user, or the lookup failed.
    UserGone,
    /// The user is not an administrator.
    NoPerms,
}

impl AdminRefusal {
    /// The text shown for the refusal.
    pub open spec fn text(self) -> Seq<char> {
        match self {
            AdminRefusal::NotLoggedIn => "Your not logined!"@,
            AdminRefusal::UserGone => "This user no longer exists!"@,
            AdminRefusal::NoPerms => "You don't have perms"@,
        }
    }

    pub fn message(&self) -> (r: &'static str)
        ensures
            r@ == self.text(),
    {
        match self {
            AdminRefusal::NotLoggedIn => "Your not logined!",
            AdminRefusal::UserGone => "This user no longer exists!",
            AdminRefusal::NoPerms => "You don't have perms",
        }
    }
}

/// First half of the administrator check: the user id in the session text,
/// which the caller then looks up.
pub fn check_if_admin_id(userid: &str) -> (r: Result<u128, AdminRefusal>)
    ensures
        r == match uuid_from_text(userid@) {
            Some(id) => Ok(id),
            None => Err(AdminRefusal::NotLoggedIn),
        },
{
    match parse_user_id(userid) {
        Some(id) => Ok(id),
        None => Err(AdminRefusal::NotLoggedIn),
    }
}

/// The refusal, if any, that the lookup of a user's `is_admin` flag gives.
pub open spec fn admin_refusal(flag: Lookup<bool>) -> Option<AdminRefusal> {
    match access_of(flag) {
        Access::Granted => None,
        Access::Forbidden => Some(AdminRefusal::NoPerms),
        _ => Some(AdminRefusal::UserGone),
    }
}

/// Second half of the administrator check, from the lookup of `is_admin`.
pub fn check_if_admin_flag(flag: Lookup<bool>) -> (r: Option<AdminRefusal>)
    ensures
        r == admin_refusal(flag),
{
    match decide_access(flag) {
        Access::Granted => None,
        Access::Forbidden => Some(AdminRefusal::NoPerms),
        _ => Some(AdminRefusal::UserGone),
    }
}

/// How a schedule import ends.
#[derive(PartialEq, Eq, Structural, Clone, Copy, Debug)]
pub enum QueueReply {
    /// No session cookie.
    NotLoggedIn,
    /// The administrator check refused.
    Refused(AdminRefusal),
    /// The listing could not be fetched.
    FetchFailed,
    /// The schedule could not be stored.
    StoreFailed,
    /// The schedule was stored.
    Queued,
}

impl QueueReply {
    /// The error text shown, or `None` for the confirmation page.
    pub open spec fn text(self) -> Option<Seq<char>> {
        match self {
            QueueReply::NotLoggedIn => Some("You are not logined in"@),
            QueueReply::Refused(r) => Some(r.text()),
            QueueReply::FetchFailed => Some("Database error!"@),
            QueueReply::StoreFailed => Some("Database error!"@),
            QueueReply::Queued => None,
        }
    }

    pub fn message(&self) -> (r: Option<&'static str>)
        ensures
            r matches Some(m) ==> self.text() == Some(m@),
            r is None ==> self.text() is None,
    {
        match self {
            QueueReply::NotLoggedIn => Some("You are not logined in"),
            QueueReply::Refused(r) => Some(r.message()),
            QueueReply::FetchFailed => Some("Database error!"),
            QueueReply::StoreFailed => Some("Database error!"),
            QueueReply::Queued => None,
        }
    }
}

/// Start of a schedule import: the session cookie gives the user id to check
/// for administrator rights.
pub fn queue_form_start(cookie: Option<&str>) -> (r: Result<u128, QueueReply>)
    ensures
        r == match cookie {
            None => Err(QueueReply::NotLoggedIn),
            Some(text) => match uuid_from_text(text@) {
                Some(id) => Ok(id),
                None => Err(QueueReply::Refused(AdminRefusal::NotLoggedIn)),
            },
        },
{
    match cookie {
        None => Err(QueueReply::NotLoggedIn),
        Some(text) => match check_if_admin_id(text) {
            Ok(id) => Ok(id),
            Err(refusal) => Err(QueueReply::Refused(refusal)),
        },
    }
}

/// After the `is_admin` lookup: stop with a refusal, or go on to fetch the
/// listing (`None`).
pub fn queue_form_after_admin(flag: Lookup<bool>) -> (r: Option<QueueReply>)
    ensures
        r == match admin_refusal(flag) {
            Some(refusal) => Some(QueueReply::Refused(refusal)),
            None => None,
        },
{
    match check_if_admin_flag(flag) {
        Some(refusal) => Some(QueueReply::Refused(refusal)),
        None => None,
    }
}

/// After the listing was fetched (`None` when the request failed): the
/// schedule to store, each listed match converted in order.
pub fn queue_form_after_fetch(listing: Option<Vec<TbaMatch>>) -> (r: Result<ScheduleData, QueueReply>)
    ensures
        listing is None ==> r == Err::<ScheduleData, QueueReply>(QueueReply::FetchFailed),
        listing matches Some(l) ==> (r matches Ok(s) && s.Schedule@.len() == l@.len()
            && forall|i: int| 0 <= i < l@.len() ==> converted_match(l@[i], #[trigger] s.Schedule@[i])),
{
    match listing {
        None => Err(QueueReply::FetchFailed),
        Some(l) => Ok(schedule_from(&l)),
    }
}

/// After the schedule was stored, or not.
pub fn queue_form_after_store(stored: bool) -> (r: QueueReply)
    ensures
        r == if stored { QueueReply::Queued } else { QueueReply::StoreFailed },
{
    if stored {
        QueueReply::Queued
    } else {
        QueueReply::StoreFailed
    }
}

} // verus!
