//! The scouting queue as scouts see it: the flat rows of the match/team join
//! grouped into one record per match, and the check that the scout may write.
#![allow(non_snake_case)]
use vstd::prelude::*;

use crate::access::{check_write, parse_user_id, uuid_from_text, write_gate, Lookup, WriteRefusal};

verus! {

/// One row of the join of `matches` with `match_teams`.
pub struct FlatMatchRow {
    pub match_id: i64,
    pub description: String,
    pub match_number: i32,
    pub event_code: String,
    pub tournament_level: String,
    pub team_number: i32,
    pub team_id: i32,
    pub station: String,
}

/// One queued match with the teams still to be scouted in it.
pub struct MatchFull {
    pub id: i64,
    pub description: String,
    pub event_code: String,
    pub matchNumber: i32,
    pub tournamentLevel: String,
    pub teams: Vec<TeamFull>,
}

/// One team still to be scouted: its `match_teams` row, number and station.
pub struct TeamFull {
    pub id: i32,
    pub teamNumber: u32,
    pub station: String,
}

impl View for TeamFull {
    type V = (i32, u32, Seq<char>);

    open spec fn view(&self) -> (i32, u32, Seq<char>) {
        (self.id, self.teamNumber, self.station@)
    }
}

/// The team that a row lists.
pub open spec fn team_of(r: FlatMatchRow) -> (i32, u32, Seq<char>) {
    (r.team_id, r.team_number as u32, r.station@)
}

/// The teams of the rows of match `id`, in row order.
pub open spec fn teams_of_match(rows: Seq<FlatMatchRow>, id: i64) -> Seq<(i32, u32, Seq<char>)>
    decreases rows.len(),
{
    if rows.len() == 0 {
        seq![]
    } else {
        let before = teams_of_match(rows.drop_last(), id);
        if rows.last().match_id == id {
            before.push(team_of(rows.last()))
        } else {
            before
        }
    }
}

/// Row `k` is the first row of match `id`.
pub open spec fn is_first_of(rows: Seq<FlatMatchRow>, k: int, id: i64) -> bool {
    &&& 0 <= k < rows.len()
    &&& rows[k].match_id == id
    &&& forall|j: int| 0 <= j < k ==> rows[j].match_id != id
}

/// Some row belongs to match `id`.
pub open spec fn has_match(rows: Seq<FlatMatchRow>, id: i64) -> bool {
    exists|k: int| 0 <= k < rows.len() && rows[k].match_id == id
}

/// The match record carries the match data of row `r`.
pub open spec fn heads_match(m: MatchFull, r: FlatMatchRow) -> bool {
    &&& m.id == r.match_id
    &&& m.description == r.description
    &&& m.matchNumber == r.match_number
    &&& m.event_code == r.event_code
    &&& m.tournamentLevel == r.tournament_level
}

/// The views of a list of teams.
pub open spec fn team_full_views(teams: Seq<TeamFull>) -> Seq<(i32, u32, Seq<char>)> {
    teams.map_values(|t: TeamFull| t@)
}

/// `m` is the record of its match in `rows`: it carries the match data of the
/// match's first row and lists the teams of all the match's rows in row
/// order.
pub open spec fn record_of(rows: Seq<FlatMatchRow>, m: MatchFull) -> bool {
    &&& exists|k: int| is_first_of(rows, k, m.id) && heads_match(m, rows[k])
    &&& team_full_views(m.teams@) == teams_of_match(rows, m.id)
}

/// `out` groups `rows` by match: one record per match, in increasing order of
/// match id, and a match for every row.
pub open spec fn grouped(rows: Seq<FlatMatchRow>, out: Seq<MatchFull>) -> bool {
    &&& forall|a: int, b: int| 0 <= a < b < out.len() ==> out[a].id < out[b].id
    &&& forall|k: int| 0 <= k < rows.len() ==> has_record(out, #[trigger] rows[k].match_id)
    &&& forall|a: int| 0 <= a < out.len() ==> #[trigger] record_of(rows, out[a])
}

/// Some record is that of match `id`.
pub open spec fn has_record(out: Seq<MatchFull>, id: i64) -> bool {
    exists|a: int| 0 <= a < out.len() && out[a].id == id
}

proof fn lemma_teams_of_absent_match(rows: Seq<FlatMatchRow>, id: i64)
    requires
        forall|k: int| 0 <= k < rows.len() ==> rows[k].match_id != id,
    ensures
        teams_of_match(rows, id) == Seq::<(i32, u32, Seq<char>)>::empty(),
    decreases rows.len(),
{
    if rows.len() > 0 {
        lemma_teams_of_absent_match(rows.drop_last(), id);
    }
}

/// Match `id` is among `ids`.
pub open spec fn listed(ids: Seq<i64>, id: i64) -> bool {
    exists|a: int| 0 <= a < ids.len() && ids[a] == id
}

/// The distinct match ids of the rows, in increasing order.
fn sorted_match_ids(rows: &Vec<FlatMatchRow>) -> (ids: Vec<i64>)
    ensures
        forall|a: int, b: int| 0 <= a < b < ids@.len() ==> ids@[a] < ids@[b],
        forall|a: int| 0 <= a < ids@.len() ==> has_match(rows@, #[trigger] ids@[a]),
        forall|k: int| 0 <= k < rows@.len() ==> listed(ids@, #[trigger] rows@[k].match_id),
{
    let mut ids: Vec<i64> = Vec::new();
    let mut i: usize = 0;
    while i < rows.len()
        invariant
            i <= rows@.len(),
            forall|a: int, b: int| 0 <= a < b < ids@.len() ==> ids@[a] < ids@[b],
            forall|a: int| 0 <= a < ids@.len() ==> has_match(rows@, #[trigger] ids@[a]),
            forall|k: int| 0 <= k < i ==> listed(ids@, #[trigger] rows@[k].match_id),
        decreases rows@.len() - i,
    {
        let id = rows[i].match_id;
        let mut pos: usize = 0;
        while pos < ids.len() && ids[pos] < id
            invariant
                pos <= ids@.len(),
                forall|a: int| 0 <= a < pos ==> ids@[a] < id,
            decreases ids@.len() - pos,
        {
            pos = pos + 1;
        }
        if pos < ids.len() && ids[pos] == id {
            assert(ids@[pos as int] == rows@[i as int].match_id);
            assert(listed(ids@, rows@[i as int].match_id));
        } else {
            let ghost old_ids = ids@;
            assert(has_match(rows@, id)) by {
                assert(rows@[i as int].match_id == id);
            }
            ids.insert(pos, id);
            assert(ids@ == old_ids.insert(pos as int, id));
            assert forall|a: int, b: int| 0 <= a < b < ids@.len() implies ids@[a] < ids@[b] by {
                if b < pos {
                } else if b == pos {
                } else if a < pos {
                    assert(ids@[b] == old_ids[b - 1]);
                } else if a == pos {
                    assert(ids@[b] == old_ids[b - 1]);
                    assert(old_ids[pos as int] >= id);
                } else {
                    assert(ids@[b] == old_ids[b - 1]);
                    assert(ids@[a] == old_ids[a - 1]);
                }
            }
            assert forall|a: int| 0 <= a < ids@.len() implies has_match(rows@, #[trigger] ids@[a]) by {
                if a < pos {
                    assert(ids@[a] == old_ids[a]);
                } else if a > pos {
                    assert(ids@[a] == old_ids[a - 1]);
                }
            }
            assert forall|k: int| 0 <= k < i implies listed(ids@, #[trigger] rows@[k].match_id) by {
                assert(listed(old_ids, rows@[k].match_id));
                let a0 = choose|a: int| 0 <= a < old_ids.len() && old_ids[a] == rows@[k].match_id;
                if a0 < pos {
                    assert(ids@[a0] == old_ids[a0]);
                } else {
                    assert(ids@[a0 + 1] == old_ids[a0]);
                }
            }
            assert(ids@[pos as int] == rows@[i as int].match_id);
            assert(listed(ids@, rows@[i as int].match_id));
        }
        i = i + 1;
    }
    ids
}

/// The record of match `id`: the match data of its first row and the teams
/// of all its rows, in row order.
fn collect_match(rows: &Vec<FlatMatchRow>, id: i64) -> (m: MatchFull)
    requires
        has_match(rows@, id),
    ensures
        m.id == id,
        record_of(rows@, m),
{
    let mut acc: Option<MatchFull> = None;
    let mut j: usize = 0;
    while j < rows.len()
        invariant
            j <= rows@.len(),
            acc is None ==> forall|k: int| 0 <= k < j ==> rows@[k].match_id != id,
            acc matches Some(m) ==> (exists|k: int| k < j && is_first_of(rows@, k, id) && heads_match(m, rows@[k]))
                && team_full_views(m.teams@) == teams_of_match(rows@.take(j as int), id),
        decreases rows@.len() - j,
    {
        let r = &rows[j];
        let ghost prefix = rows@.take(j as int);
        assert(rows@.take(j + 1).drop_last() =~= prefix);
        assert(rows@.take(j + 1).last() == rows@[j as int]);
        if r.match_id == id {
            let team = TeamFull { id: r.team_id, teamNumber: r.team_number as u32, station: r.station.clone() };
            let current = acc;
            acc = match current {
                None => {
                    proof {
                        lemma_teams_of_absent_match(prefix, id);
                        assert(is_first_of(rows@, j as int, id));
                    }
                    let mut teams: Vec<TeamFull> = Vec::new();
                    teams.push(team);
                    assert(team_full_views(teams@) =~= seq![team_of(rows@[j as int])]);
                    Some(
                        MatchFull {
                            id: r.match_id,
                            description: r.description.clone(),
                            event_code: r.event_code.clone(),
                            matchNumber: r.match_number,
                            tournamentLevel: r.tournament_level.clone(),
                            teams,
                        },
                    )
                },
                Some(m) => {
                    let mut m = m;
                    let ghost old_teams = m.teams@;
                    m.teams.push(team);
                    assert(team_full_views(m.teams@) =~= team_full_views(old_teams).push(team_of(rows@[j as int])));
                    Some(m)
                },
            };
        }
        j = j + 1;
    }
    assert(rows@.take(rows@.len() as int) =~= rows@);
    match acc {
        Some(m) => m,
        None => {
            proof {
                let k = choose|k: int| 0 <= k < rows@.len() && rows@[k].match_id == id;
                assert(false);
            }
            MatchFull {
                id,
                description: String::new(),
                event_code: String::new(),
                matchNumber: 0,
                tournamentLevel: String::new(),
                teams: Vec::new(),
            }
        },
    }
}

/// Groups the rows of the match/team join by match, as `get_matches` does:
/// one record per match in increasing order of match id, each with the match
/// data of its first row and the teams of all its rows in row order.
pub fn group_match_rows(rows: Vec<FlatMatchRow>) -> (out: Vec<MatchFull>)
    ensures
        grouped(rows@, out@),
{
    let ids = sorted_match_ids(&rows);
    let mut out: Vec<MatchFull> = Vec::new();
    let mut a: usize = 0;
    while a < ids.len()
        invariant
            a <= ids@.len(),
            out@.len() == a,
            forall|x: int| 0 <= x < a ==> out@[x].id == ids@[x],
            forall|x: int, y: int| 0 <= x < y < ids@.len() ==> ids@[x] < ids@[y],
            forall|x: int| 0 <= x < ids@.len() ==> has_match(rows@, #[trigger] ids@[x]),
            forall|x: int| 0 <= x < a ==> #[trigger] record_of(rows@, out@[x]),
        decreases ids@.len() - a,
    {
        let m = collect_match(&rows, ids[a]);
        let ghost before = out@;
        out.push(m);
        assert forall|x: int| 0 <= x < a + 1 implies #[trigger] record_of(rows@, out@[x]) by {
            if x < a {
                assert(out@[x] == before[x]);
            }
        }
        a = a + 1;
    }
    assert forall|k: int| 0 <= k < rows@.len() implies has_record(out@, #[trigger] rows@[k].match_id) by {
        assert(listed(ids@, rows@[k].match_id));
        let x = choose|x: int| 0 <= x < ids@.len() && ids@[x] == rows@[k].match_id;
        assert(out@[x].id == ids@[x]);
    }
    assert forall|x: int, y: int| 0 <= x < y < out@.len() implies out@[x].id < out@[y].id by {
        assert(out@[x].id == ids@[x]);
        assert(out@[y].id == ids@[y]);
    }
    out
}

/// The teams of match `id` are exactly the teams of its rows.
proof fn lemma_teams_of_match_members(rows: Seq<FlatMatchRow>, id: i64)
    ensures
        forall|k: int|
            0 <= k < rows.len() && rows[k].match_id == id ==> teams_of_match(rows, id).contains(
                team_of(#[trigger] rows[k]),
            ),
        forall|t: (i32, u32, Seq<char>)|
            teams_of_match(rows, id).contains(t) ==> exists|k: int|
                0 <= k < rows.len() && rows[k].match_id == id && team_of(#[trigger] rows[k]) == t,
    decreases rows.len(),
{
    if rows.len() > 0 {
        let init = rows.drop_last();
        lemma_teams_of_match_members(init, id);
        let before = teams_of_match(init, id);
        assert forall|k: int|
            0 <= k < rows.len() && rows[k].match_id == id implies teams_of_match(rows, id).contains(
                team_of(#[trigger] rows[k]),
            ) by {
            if k < rows.len() - 1 {
                assert(init[k] == rows[k]);
                let j = choose|j: int| 0 <= j < before.len() && before[j] == team_of(init[k]);
                assert(teams_of_match(rows, id)[j] == before[j]);
            } else {
                assert(teams_of_match(rows, id).last() == team_of(rows[k]));
            }
        }
        assert forall|t: (i32, u32, Seq<char>)| teams_of_match(rows, id).contains(t) implies exists|k: int|
            0 <= k < rows.len() && rows[k].match_id == id && team_of(#[trigger] rows[k]) == t by {
            let j = choose|j: int| 0 <= j < teams_of_match(rows, id).len() && teams_of_match(rows, id)[j] == t;
            if j < before.len() {
                assert(before[j] == t);
                assert(before.contains(t));
                let k = choose|k: int| 0 <= k < init.len() && init[k].match_id == id && team_of(init[k]) == t;
                assert(rows[k] == init[k]);
            } else {
                assert(rows[rows.len() - 1].match_id == id);
            }
        }
    }
}

/// The team of row `r` is listed in the record of its match.
pub open spec fn listed_with_match(out: Seq<MatchFull>, r: FlatMatchRow) -> bool {
    exists|a: int|
        0 <= a < out.len() && out[a].id == r.match_id && team_full_views(out[a].teams@).contains(
            team_of(r),
        )
}

/// Grouping loses and invents no team: every row's team is listed in the
/// record of its match, and every listed team comes from a row of that match.
pub proof fn lemma_grouping_keeps_teams(rows: Seq<FlatMatchRow>, out: Seq<MatchFull>)
    requires
        grouped(rows, out),
    ensures
        forall|k: int| 0 <= k < rows.len() ==> listed_with_match(out, #[trigger] rows[k]),
        forall|a: int, t: (i32, u32, Seq<char>)|
            0 <= a < out.len() && #[trigger] team_full_views(out[a].teams@).contains(t) ==> exists|k: int|
                0 <= k < rows.len() && rows[k].match_id == out[a].id && team_of(rows[k]) == t,
{
    assert forall|k: int| 0 <= k < rows.len() implies listed_with_match(out, #[trigger] rows[k]) by {
        assert(has_record(out, rows[k].match_id));
        let a = choose|a: int| 0 <= a < out.len() && out[a].id == rows[k].match_id;
        assert(record_of(rows, out[a]));
        lemma_teams_of_match_members(rows, out[a].id);
    }
    assert forall|a: int, t: (i32, u32, Seq<char>)|
        0 <= a < out.len() && #[trigger] team_full_views(out[a].teams@).contains(t) implies exists|k: int|
        0 <= k < rows.len() && rows[k].match_id == out[a].id && team_of(rows[k]) == t by {
        assert(record_of(rows, out[a]));
        lemma_teams_of_match_members(rows, out[a].id);
    }
}

/// The number of teams listed over all records.
pub open spec fn listed_team_count(out: Seq<MatchFull>) -> int
    decreases out.len(),
{
    if out.len() == 0 {
        0
    } else {
        listed_team_count(out.drop_last()) + out.last().teams@.len()
    }
}

/// The number of rows of each of the matches `ids`, added up.
spec fn rows_of_matches(rows: Seq<FlatMatchRow>, ids: Seq<i64>) -> int
    decreases ids.len(),
{
    if ids.len() == 0 {
        0
    } else {
        rows_of_matches(rows, ids.drop_last()) + teams_of_match(rows, ids.last()).len()
    }
}

/// How often `id` occurs among `ids`.
spec fn occurrences(ids: Seq<i64>, id: i64) -> int
    decreases ids.len(),
{
    if ids.len() == 0 {
        0
    } else {
        occurrences(ids.drop_last(), id) + if ids.last() == id {
            1int
        } else {
            0int
        }
    }
}

proof fn lemma_single_occurrence(ids: Seq<i64>, id: i64)
    requires
        forall|a: int, b: int| 0 <= a < b < ids.len() ==> ids[a] != ids[b],
    ensures
        occurrences(ids, id) == if listed(ids, id) {
            1int
        } else {
            0int
        },
    decreases ids.len(),
{
    if ids.len() > 0 {
        let init = ids.drop_last();
        lemma_single_occurrence(init, id);
        if listed(init, id) {
            let a = choose|a: int| 0 <= a < init.len() && init[a] == id;
            assert(ids[a] == init[a]);
            assert(ids.last() != id);
        } else if ids.last() == id {
        } else {
            assert forall|a: int| 0 <= a < ids.len() implies ids[a] != id by {
                if a < ids.len() - 1 {
                    assert(ids[a] == init[a]);
                }
            }
        }
    }
}

proof fn lemma_rows_of_matches_last_row(rows: Seq<FlatMatchRow>, ids: Seq<i64>)
    requires
        rows.len() > 0,
    ensures
        rows_of_matches(rows, ids) == rows_of_matches(rows.drop_last(), ids) + occurrences(
            ids,
            rows.last().match_id,
        ),
    decreases ids.len(),
{
    if ids.len() > 0 {
        lemma_rows_of_matches_last_row(rows, ids.drop_last());
    }
}

proof fn lemma_rows_of_matches_total(rows: Seq<FlatMatchRow>, ids: Seq<i64>)
    requires
        forall|a: int, b: int| 0 <= a < b < ids.len() ==> ids[a] != ids[b],
        forall|k: int| 0 <= k < rows.len() ==> listed(ids, #[trigger] rows[k].match_id),
    ensures
        rows_of_matches(rows, ids) == rows.len(),
    decreases rows.len(),
{
    if rows.len() == 0 {
        assert(rows_of_matches(rows, ids) == 0) by {
            lemma_rows_of_matches_empty(rows, ids);
        }
    } else {
        let init = rows.drop_last();
        assert forall|k: int| 0 <= k < init.len() implies listed(ids, #[trigger] init[k].match_id) by {
            assert(init[k] == rows[k]);
        }
        lemma_rows_of_matches_total(init, ids);
        lemma_rows_of_matches_last_row(rows, ids);
        lemma_single_occurrence(ids, rows.last().match_id);
        assert(listed(ids, rows[rows.len() - 1].match_id));
    }
}

proof fn lemma_rows_of_matches_empty(rows: Seq<FlatMatchRow>, ids: Seq<i64>)
    requires
        rows.len() == 0,
    ensures
        rows_of_matches(rows, ids) == 0,
    decreases ids.len(),
{
    if ids.len() > 0 {
        lemma_rows_of_matches_empty(rows, ids.drop_last());
    }
}

proof fn lemma_listed_count_is_rows_of_matches(rows: Seq<FlatMatchRow>, out: Seq<MatchFull>)
    requires
        forall|a: int| 0 <= a < out.len() ==> #[trigger] record_of(rows, out[a]),
    ensures
        listed_team_count(out) == rows_of_matches(rows, out.map_values(|m: MatchFull| m.id)),
    decreases out.len(),
{
    if out.len() > 0 {
        let init = out.drop_last();
        assert forall|a: int| 0 <= a < init.len() implies #[trigger] record_of(rows, init[a]) by {
            assert(init[a] == out[a]);
        }
        lemma_listed_count_is_rows_of_matches(rows, init);
        let ids = out.map_values(|m: MatchFull| m.id);
        assert(ids.drop_last() =~= init.map_values(|m: MatchFull| m.id));
        assert(record_of(rows, out[out.len() - 1]));
        assert(team_full_views(out.last().teams@).len() == out.last().teams@.len());
    }
}

/// Grouping keeps the number of teams: the records list as many teams as
/// there are rows.
pub proof fn lemma_grouping_counts_every_row(rows: Seq<FlatMatchRow>, out: Seq<MatchFull>)
    requires
        grouped(rows, out),
    ensures
        listed_team_count(out) == rows.len(),
{
    let ids = out.map_values(|m: MatchFull| m.id);
    lemma_listed_count_is_rows_of_matches(rows, out);
    assert forall|a: int, b: int| 0 <= a < b < ids.len() implies ids[a] != ids[b] by {
        assert(out[a].id < out[b].id);
    }
    assert forall|k: int| 0 <= k < rows.len() implies listed(ids, #[trigger] rows[k].match_id) by {
        assert(has_record(out, rows[k].match_id));
        let a = choose|a: int| 0 <= a < out.len() && out[a].id == rows[k].match_id;
        assert(ids[a] == out[a].id);
    }
    lemma_rows_of_matches_total(rows, ids);
}

/// Start of the scouting page: the user id in the session cookie.
pub fn scout_start(cookie: Option<&str>) -> (r: Result<u128, WriteRefusal>)
    ensures
        r == match cookie {
            None => Err(WriteRefusal::NotLoggedIn),
            Some(text) => match uuid_from_text(text@) {
                Some(id) => Ok(id),
                None => Err(WriteRefusal::NotLoggedIn),
            },
        },
{
    match cookie {
        None => Err(WriteRefusal::NotLoggedIn),
        Some(text) => match parse_user_id(text) {
            Some(id) => Ok(id),
            None => Err(WriteRefusal::NotLoggedIn),
        },
    }
}

/// After the lookup of the scout's `(can_write, username)`: a refusal, or
/// `None` to go on and read the queue.
pub fn scout_after_user(row: Lookup<(bool, String)>) -> (r: Option<WriteRefusal>)
    ensures
        r == match write_gate(row) {
            Ok(_) => None,
            Err(refusal) => Some(refusal),
        },
{
    match check_write(row) {
        Ok(_) => None,
        Err(refusal) => Some(refusal),
    }
}

/// The scouting page after the queue was read (`None` when the read failed):
/// `Database Error`, or the queue grouped by match.
pub fn scout_after_rows(rows: Option<Vec<FlatMatchRow>>) -> (r: Result<Vec<MatchFull>, WriteRefusal>)
    ensures
        rows is None ==> r == Err::<Vec<MatchFull>, WriteRefusal>(WriteRefusal::DbError),
        rows matches Some(v) ==> (r matches Ok(out) && grouped(v@, out@)),
{
    match rows {
        None => Err(WriteRefusal::DbError),
        Some(v) => Ok(group_match_rows(v)),
    }
}

} // verus!
