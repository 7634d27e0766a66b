//! The storing of a scouting report, as a sequence of database steps: the
//! report row, its auto, teleop and endgame rows, then the removal of the
//! scouted team from the match queue, and of the match once no team is left.
//!
//! The caller performs each action that a step returns and feeds the
//! outcome back as the next event, until a reply or an abort comes out.
use vstd::prelude::*;
use vstd::string::*;

use crate::access::{write_gate, Lookup, WriteRefusal};
use crate::text::str_eq;

verus! {

/// The level label stored for a tournament level: `qual` for a
/// qualification match, `Playoff` for anything else.
pub open spec fn level_label(level: Seq<char>) -> Seq<char> {
    if level == "Qualification"@ {
        "qual"@
    } else {
        "Playoff"@
    }
}

/// The six driver stations.
pub open spec fn is_station(station: Seq<char>) -> bool {
    ||| station == "Red1"@
    ||| station == "Red2"@
    ||| station == "Red3"@
    ||| station == "Blue1"@
    ||| station == "Blue2"@
    ||| station == "Blue3"@
}

/// The station stored for a station text: the text itself when it names a
/// driver station, `Red1` otherwise.
pub open spec fn station_label(station: Seq<char>) -> Seq<char> {
    if is_station(station) {
        station
    } else {
        "Red1"@
    }
}

/// A yes/no field of the form: only `yes` means yes.
pub open spec fn yes_flag(answer: Seq<char>) -> bool {
    answer == "yes"@
}

/// The stored level label of a tournament level.
pub fn level_text(level: &str) -> (r: String)
    ensures
        r@ == level_label(level@),
{
    if str_eq(level, "Qualification") {
        String::from_str("qual")
    } else {
        String::from_str("Playoff")
    }
}

/// The stored station of a station text.
pub fn station_text(station: &str) -> (r: String)
    ensures
        r@ == station_label(station@),
{
    if str_eq(station, "Red1") || str_eq(station, "Red2") || str_eq(station, "Red3") || str_eq(
        station,
        "Blue1",
    ) || str_eq(station, "Blue2") || str_eq(station, "Blue3") {
        String::from_str(station)
    } else {
        String::from_str("Red1")
    }
}

/// Whether a yes/no field says yes.
pub fn says_yes(answer: &str) -> (r: bool)
    ensures
        r == yes_flag(answer@),
{
    str_eq(answer, "yes")
}

/// Everything that is stored of one report.
pub struct Submission {
    /// The scout's name.
    pub user: String,
    pub team: i32,
    pub matchid: i32,
    pub total_score: i32,
    pub event_code: String,
    pub level: String,
    pub station: String,
    /// The `match_teams` row that the report covers.
    pub team_row: i32,
    pub moved: bool,
    pub auto_l1: i32,
    pub auto_l2: i32,
    pub auto_l3: i32,
    pub auto_l4: i32,
    pub auto_algae_processor: i32,
    pub auto_algae_barge: i32,
    pub auto_algae_remove: i32,
    pub teleop_l1: i32,
    pub teleop_l2: i32,
    pub teleop_l3: i32,
    pub teleop_l4: i32,
    pub teleop_algae_processor: i32,
    pub teleop_algae_barge: i32,
    pub teleop_algae_remove: i32,
    pub died: bool,
    pub defense_rating: i32,
    pub climb_type: String,
    pub comment: String,
}

/// The `scouting_entry` row of a report. Its verification status is always
/// `Unverified` (`EntryRow::verification_status`).
pub struct EntryRow {
    pub user: String,
    pub team: i32,
    pub matchid: i32,
    pub total_score: i32,
    pub event_code: String,
    pub tournament_level: String,
    pub station: String,
}

impl EntryRow {
    /// The verification status that a new report is stored with.
    pub fn verification_status(&self) -> (r: &'static str)
        ensures
            r@ == "Unverified"@,
    {
        "Unverified"
    }
}

/// The `auto_data` row of a report.
pub struct AutoRow {
    pub moved: bool,
    pub scouting_id: i64,
    pub l1: i32,
    pub l2: i32,
    pub l3: i32,
    pub l4: i32,
    pub algae_processor: i32,
    pub algae_barge: i32,
    pub algae_remove: i32,
}

/// The `teleop_data` row of a report.
pub struct TeleopRow {
    pub scouting_id: i64,
    pub l1: i32,
    pub l2: i32,
    pub l3: i32,
    pub l4: i32,
    pub algae_processor: i32,
    pub algae_barge: i32,
    pub algae_remove: i32,
}

/// The `endgame_data` row of a report.
pub struct EndgameRow {
    pub died: bool,
    pub scouting_id: i64,
    pub defense_rating: i32,
    pub climb_type: String,
    pub comment: String,
}

/// Who submits: a logged-in scout, whose permission is checked first and
/// whose failures are answered; or an anonymous scout, whose database
/// failures abort the request.
#[derive(PartialEq, Eq, Structural, Clone, Copy, Debug)]
pub enum SubmitMode {
    Member,
    Open,
}

/// What the flow waits for.
#[derive(PartialEq, Eq, Structural, Clone, Copy, Debug)]
pub enum SubmitStage {
    /// The scout's `(can_write, username)`.
    User,
    /// The id of the new report row.
    Entry,
    /// The auto row written.
    Auto,
    /// The teleop row written.
    Teleop,
    /// The endgame row written.
    Endgame,
    /// The match of the scouted `match_teams` row.
    MatchOfTeam,
    /// The `match_teams` row removed.
    Unlink,
    /// The number of teams left in the match.
    Count,
    /// The match removed.
    DropMatch,
    /// Nothing: a reply or an abort was given.
    Finished,
}

/// The outcome of an action, fed back to the flow.
pub enum SubmitEvent {
    /// The user lookup.
    User(Lookup<(bool, String)>),
    /// The report insert: `Err` when it failed, `Ok(None)` when the returned
    /// id could not be read.
    EntryId(Result<Option<i64>, ()>),
    /// An insert or a delete, done or failed.
    Written(bool),
    /// The match of the scouted row, `None` when the lookup failed.
    MatchOfTeam(Option<i32>),
    /// The number of teams left, `None` when the count failed.
    Remaining(Option<i64>),
}

/// How a submission is answered.
#[derive(PartialEq, Eq, Structural, Clone, Copy, Debug)]
pub enum SubmitReply {
    Refused(WriteRefusal),
    DbError,
    /// The id of the new report could not be read.
    Failed,
    Submitted,
}

impl SubmitReply {
    /// The text of the reply.
    pub open spec fn text(self) -> Seq<char> {
        match self {
            SubmitReply::Refused(r) => r.text(),
            SubmitReply::DbError => "Database Error"@,
            SubmitReply::Failed => "Failed"@,
            SubmitReply::Submitted => "Scouting data submitted successfully"@,
        }
    }

    pub fn message(&self) -> (r: &'static str)
        ensures
            r@ == self.text(),
    {
        match self {
            SubmitReply::Refused(r) => r.message(),
            SubmitReply::DbError => "Database Error",
            SubmitReply::Failed => "Failed",
            SubmitReply::Submitted => "Scouting data submitted successfully",
        }
    }
}

/// Why an anonymous submission aborts (the request panics with this text).
#[derive(PartialEq, Eq, Structural, Clone, Copy, Debug)]
pub enum SubmitAbort {
    InsertFailed,
    AutoFailed,
    TeleopFailed,
    EndgameFailed,
    MatchIdFailed,
    UnlinkFailed,
    CountFailed,
    DropFailed,
    /// The id of a logged-in scout's new report could not be read.
    IdUnreadable,
}

impl SubmitAbort {
    /// The panic text.
    pub open spec fn text(self) -> Seq<char> {
        match self {
            SubmitAbort::InsertFailed => "Insert failed"@,
            SubmitAbort::AutoFailed => "Failed to insert into auto_data"@,
            SubmitAbort::TeleopFailed => "Failed to insert into teleop_data"@,
            SubmitAbort::EndgameFailed => "Failed to insert endgame data"@,
            SubmitAbort::MatchIdFailed => "Failed to get match id"@,
            SubmitAbort::UnlinkFailed => "Failed to insert match teams"@,
            SubmitAbort::CountFailed => "Failed to get match ID"@,
            SubmitAbort::DropFailed => "Remove matches failed!"@,
            SubmitAbort::IdUnreadable => "Could not get ID"@,
        }
    }

    pub fn message(&self) -> (r: &'static str)
        ensures
            r@ == self.text(),
    {
        match self {
            SubmitAbort::InsertFailed => "Insert failed",
            SubmitAbort::AutoFailed => "Failed to insert into auto_data",
            SubmitAbort::TeleopFailed => "Failed to insert into teleop_data",
            SubmitAbort::EndgameFailed => "Failed to insert endgame data",
            SubmitAbort::MatchIdFailed => "Failed to get match id",
            SubmitAbort::UnlinkFailed => "Failed to insert match teams",
            SubmitAbort::CountFailed => "Failed to get match ID",
            SubmitAbort::DropFailed => "Remove matches failed!",
            SubmitAbort::IdUnreadable => "Could not get ID",
        }
    }
}

/// The next thing to do.
pub enum SubmitAction {
    /// Look up `(can_write, username)` of this user id.
    LookupUser(u128),
    /// Insert the report row and return its id.
    InsertEntry(EntryRow),
    InsertAuto(AutoRow),
    InsertTeleop(TeleopRow),
    InsertEndgame(EndgameRow),
    /// Look up the match of this `match_teams` row.
    FindMatchOfTeam(i32),
    /// Delete this `match_teams` row.
    UnlinkTeam(i32),
    /// Count the `match_teams` rows of this match.
    CountTeams(i32),
    /// Delete this match.
    DropMatch(i32),
    /// Answer the request.
    Reply(SubmitReply),
    /// Abort the request.
    Abort(SubmitAbort),
}

/// A submission in progress.
pub struct SubmitFlow {
    pub mode: SubmitMode,
    pub data: Submission,
    /// The report's score, computed up front where it fits in `i32`.
    pub score: Option<i32>,
    pub scouting_id: i64,
    pub match_id: i32,
    pub stage: SubmitStage,
}

/// The report row of a submission.
pub open spec fn entry_row(d: Submission) -> EntryRow {
    EntryRow {
        user: d.user,
        team: d.team,
        matchid: d.matchid,
        total_score: d.total_score,
        event_code: d.event_code,
        tournament_level: d.level,
        station: d.station,
    }
}

/// The auto row of a submission.
pub open spec fn auto_row(d: Submission, id: i64) -> AutoRow {
    AutoRow {
        moved: d.moved,
        scouting_id: id,
        l1: d.auto_l1,
        l2: d.auto_l2,
        l3: d.auto_l3,
        l4: d.auto_l4,
        algae_processor: d.auto_algae_processor,
        algae_barge: d.auto_algae_barge,
        algae_remove: d.auto_algae_remove,
    }
}

/// The teleop row of a submission.
pub open spec fn teleop_row(d: Submission, id: i64) -> TeleopRow {
    TeleopRow {
        scouting_id: id,
        l1: d.teleop_l1,
        l2: d.teleop_l2,
        l3: d.teleop_l3,
        l4: d.teleop_l4,
        algae_processor: d.teleop_algae_processor,
        algae_barge: d.teleop_algae_barge,
        algae_remove: d.teleop_algae_remove,
    }
}

/// The endgame row of a submission.
pub open spec fn endgame_row(d: Submission, id: i64) -> EndgameRow {
    EndgameRow {
        died: d.died,
        scouting_id: id,
        defense_rating: d.defense_rating,
        climb_type: d.climb_type,
        comment: d.comment,
    }
}

/// The abort of an anonymous submission whose write in `stage` failed.
pub open spec fn write_abort(stage: SubmitStage) -> SubmitAbort {
    match stage {
        SubmitStage::Auto => SubmitAbort::AutoFailed,
        SubmitStage::Teleop => SubmitAbort::TeleopFailed,
        SubmitStage::Endgame => SubmitAbort::EndgameFailed,
        SubmitStage::Unlink => SubmitAbort::UnlinkFailed,
        _ => SubmitAbort::DropFailed,
    }
}

impl SubmitFlow {
    /// Whether `e` answers the action that the flow is waiting on.
    pub open spec fn accepts(self, e: SubmitEvent) -> bool {
        match e {
            SubmitEvent::User(row) => self.stage == SubmitStage::User && self.mode == SubmitMode::Member
                && (row matches Lookup::Found((true, _)) ==> self.score is Some),
            SubmitEvent::EntryId(_) => self.stage == SubmitStage::Entry,
            SubmitEvent::Written(_) => self.stage == SubmitStage::Auto || self.stage
                == SubmitStage::Teleop || self.stage == SubmitStage::Endgame || self.stage
                == SubmitStage::Unlink || self.stage == SubmitStage::DropMatch,
            SubmitEvent::MatchOfTeam(_) => self.stage == SubmitStage::MatchOfTeam,
            SubmitEvent::Remaining(_) => self.stage == SubmitStage::Count,
        }
    }

    /// The flow with the stage changed.
    pub open spec fn at(self, stage: SubmitStage) -> SubmitFlow {
        SubmitFlow { stage, ..self }
    }

    /// How a failed database step ends: a logged-in scout is answered
    /// `Database Error`; an anonymous submission aborts.
    pub open spec fn failure(self, abort: SubmitAbort) -> (SubmitFlow, SubmitAction) {
        if self.mode == SubmitMode::Member {
            (self.at(SubmitStage::Finished), SubmitAction::Reply(SubmitReply::DbError))
        } else {
            (self.at(SubmitStage::Finished), SubmitAction::Abort(abort))
        }
    }

    /// The state and action that follow an accepted event.
    pub open spec fn next(self, e: SubmitEvent) -> (SubmitFlow, SubmitAction) {
        let d = self.data;
        match e {
            SubmitEvent::User(row) => match write_gate(row) {
                Err(refusal) => (
                    self.at(SubmitStage::Finished),
                    SubmitAction::Reply(SubmitReply::Refused(refusal)),
                ),
                Ok(name) => {
                    let d2 = Submission { user: name, total_score: self.score->0, ..d };
                    (
                        SubmitFlow { data: d2, stage: SubmitStage::Entry, ..self },
                        SubmitAction::InsertEntry(entry_row(d2)),
                    )
                },
            },
            SubmitEvent::EntryId(res) => match res {
                Err(_) => self.failure(SubmitAbort::InsertFailed),
                Ok(None) => if self.mode == SubmitMode::Member {
                    (self.at(SubmitStage::Finished), SubmitAction::Abort(SubmitAbort::IdUnreadable))
                } else {
                    (self.at(SubmitStage::Finished), SubmitAction::Reply(SubmitReply::Failed))
                },
                Ok(Some(id)) => (
                    SubmitFlow { scouting_id: id, stage: SubmitStage::Auto, ..self },
                    SubmitAction::InsertAuto(auto_row(d, id)),
                ),
            },
            SubmitEvent::Written(ok) => if !ok {
                self.failure(write_abort(self.stage))
            } else {
                match self.stage {
                    SubmitStage::Auto => (
                        self.at(SubmitStage::Teleop),
                        SubmitAction::InsertTeleop(teleop_row(d, self.scouting_id)),
                    ),
                    SubmitStage::Teleop => (
                        self.at(SubmitStage::Endgame),
                        SubmitAction::InsertEndgame(endgame_row(d, self.scouting_id)),
                    ),
                    SubmitStage::Endgame => (
                        self.at(SubmitStage::MatchOfTeam),
                        SubmitAction::FindMatchOfTeam(d.team_row),
                    ),
                    SubmitStage::Unlink => (
                        self.at(SubmitStage::Count),
                        SubmitAction::CountTeams(self.match_id),
                    ),
                    _ => (
                        self.at(SubmitStage::Finished),
                        SubmitAction::Reply(SubmitReply::Submitted),
                    ),
                }
            },
            SubmitEvent::MatchOfTeam(found) => match found {
                None => self.failure(SubmitAbort::MatchIdFailed),
                Some(m) => (
                    SubmitFlow { match_id: m, stage: SubmitStage::Unlink, ..self },
                    SubmitAction::UnlinkTeam(d.team_row),
                ),
            },
            SubmitEvent::Remaining(left) => match left {
                None => self.failure(SubmitAbort::CountFailed),
                Some(n) => if n == 0 {
                    (self.at(SubmitStage::DropMatch), SubmitAction::DropMatch(self.match_id))
                } else {
                    (self.at(SubmitStage::Finished), SubmitAction::Reply(SubmitReply::Submitted))
                },
            },
        }
    }

    /// Ends the flow in a failed database step.
    fn fail(&mut self, abort: SubmitAbort) -> (action: SubmitAction)
        ensures
            (*final(self), action) == old(self).failure(abort),
    {
        self.stage = SubmitStage::Finished;
        if self.mode == SubmitMode::Member {
            SubmitAction::Reply(SubmitReply::DbError)
        } else {
            SubmitAction::Abort(abort)
        }
    }

    /// Takes the outcome of the last action and gives the next action.
    pub fn step(&mut self, e: SubmitEvent) -> (action: SubmitAction)
        requires
            old(self).accepts(e),
        ensures
            (*final(self), action) == old(self).next(e),
    {
        match e {
            SubmitEvent::User(row) => match crate::access::check_write(row) {
                Err(refusal) => {
                    self.stage = SubmitStage::Finished;
                    SubmitAction::Reply(SubmitReply::Refused(refusal))
                },
                Ok(name) => {
                    self.data.user = name;
                    self.data.total_score = self.score.unwrap();
                    self.stage = SubmitStage::Entry;
                    SubmitAction::InsertEntry(
                        EntryRow {
                            user: self.data.user.clone(),
                            team: self.data.team,
                            matchid: self.data.matchid,
                            total_score: self.data.total_score,
                            event_code: self.data.event_code.clone(),
                            tournament_level: self.data.level.clone(),
                            station: self.data.station.clone(),
                        },
                    )
                },
            },
            SubmitEvent::EntryId(res) => match res {
                Err(_) => self.fail(SubmitAbort::InsertFailed),
                Ok(None) => {
                    self.stage = SubmitStage::Finished;
                    if self.mode == SubmitMode::Member {
                        SubmitAction::Abort(SubmitAbort::IdUnreadable)
                    } else {
                        SubmitAction::Reply(SubmitReply::Failed)
                    }
                },
                Ok(Some(id)) => {
                    self.scouting_id = id;
                    self.stage = SubmitStage::Auto;
                    SubmitAction::InsertAuto(
                        AutoRow {
                            moved: self.data.moved,
                            scouting_id: id,
                            l1: self.data.auto_l1,
                            l2: self.data.auto_l2,
                            l3: self.data.auto_l3,
                            l4: self.data.auto_l4,
                            algae_processor: self.data.auto_algae_processor,
                            algae_barge: self.data.auto_algae_barge,
                            algae_remove: self.data.auto_algae_remove,
                        },
                    )
                },
            },
            SubmitEvent::Written(ok) => {
                if !ok {
                    let abort = match self.stage {
                        SubmitStage::Auto => SubmitAbort::AutoFailed,
                        SubmitStage::Teleop => SubmitAbort::TeleopFailed,
                        SubmitStage::Endgame => SubmitAbort::EndgameFailed,
                        SubmitStage::Unlink => SubmitAbort::UnlinkFailed,
                        _ => SubmitAbort::DropFailed,
                    };
                    self.fail(abort)
                } else {
                    match self.stage {
                        SubmitStage::Auto => {
                            self.stage = SubmitStage::Teleop;
                            SubmitAction::InsertTeleop(
                                TeleopRow {
                                    scouting_id: self.scouting_id,
                                    l1: self.data.teleop_l1,
                                    l2: self.data.teleop_l2,
                                    l3: self.data.teleop_l3,
                                    l4: self.data.teleop_l4,
                                    algae_processor: self.data.teleop_algae_processor,
                                    algae_barge: self.data.teleop_algae_barge,
                                    algae_remove: self.data.teleop_algae_remove,
                                },
                            )
                        },
                        SubmitStage::Teleop => {
                            self.stage = SubmitStage::Endgame;
                            SubmitAction::InsertEndgame(
                                EndgameRow {
                                    died: self.data.died,
                                    scouting_id: self.scouting_id,
                                    defense_rating: self.data.defense_rating,
                                    climb_type: self.data.climb_type.clone(),
                                    comment: self.data.comment.clone(),
                                },
                            )
                        },
                        SubmitStage::Endgame => {
                            self.stage = SubmitStage::MatchOfTeam;
                            SubmitAction::FindMatchOfTeam(self.data.team_row)
                        },
                        SubmitStage::Unlink => {
                            self.stage = SubmitStage::Count;
                            SubmitAction::CountTeams(self.match_id)
                        },
                        _ => {
                            self.stage = SubmitStage::Finished;
                            SubmitAction::Reply(SubmitReply::Submitted)
                        },
                    }
                }
            },
            SubmitEvent::MatchOfTeam(found) => match found {
                None => self.fail(SubmitAbort::MatchIdFailed),
                Some(m) => {
                    self.match_id = m;
                    self.stage = SubmitStage::Unlink;
                    SubmitAction::UnlinkTeam(self.data.team_row)
                },
            },
            SubmitEvent::Remaining(left) => match left {
                None => self.fail(SubmitAbort::CountFailed),
                Some(n) => {
                    if n == 0 {
                        self.stage = SubmitStage::DropMatch;
                        SubmitAction::DropMatch(self.match_id)
                    } else {
                        self.stage = SubmitStage::Finished;
                        SubmitAction::Reply(SubmitReply::Submitted)
                    }
                },
            },
        }
    }
}

/// The place of a stage in the fixed order of a submission.
pub open spec fn stage_rank(stage: SubmitStage) -> int {
    match stage {
        SubmitStage::User => 0,
        SubmitStage::Entry => 1,
        SubmitStage::Auto => 2,
        SubmitStage::Teleop => 3,
        SubmitStage::Endgame => 4,
        SubmitStage::MatchOfTeam => 5,
        SubmitStage::Unlink => 6,
        SubmitStage::Count => 7,
        SubmitStage::DropMatch => 8,
        SubmitStage::Finished => 9,
    }
}

/// The outcome reports a failed database step.
pub open spec fn is_failure(e: SubmitEvent) -> bool {
    match e {
        SubmitEvent::User(row) => row is Failed,
        SubmitEvent::EntryId(res) => res is Err,
        SubmitEvent::Written(ok) => !ok,
        SubmitEvent::MatchOfTeam(found) => found is None,
        SubmitEvent::Remaining(left) => left is None,
    }
}

/// A report row is inserted only after the scout's lookup showed that they
/// may write.
pub proof fn lemma_report_needs_write_permission(f: SubmitFlow, e: SubmitEvent)
    requires
        f.accepts(e),
        f.next(e).1 is InsertEntry,
    ensures
        f.stage == SubmitStage::User,
        e matches SubmitEvent::User(Lookup::Found((true, _))),
{
}

/// Every step moves a submission forward in its fixed order, so a
/// submission ends after at most nine steps.
pub proof fn lemma_steps_advance(f: SubmitFlow, e: SubmitEvent)
    requires
        f.accepts(e),
    ensures
        stage_rank(f.next(e).0.stage) > stage_rank(f.stage),
{
}

/// A logged-in scout whose database step fails is answered `Database Error`,
/// and the submission ends.
pub proof fn lemma_member_failure_answers_database_error(f: SubmitFlow, e: SubmitEvent)
    requires
        f.accepts(e),
        f.mode == SubmitMode::Member,
        is_failure(e),
    ensures
        f.next(e).0.stage == SubmitStage::Finished,
        f.next(e).1 matches SubmitAction::Reply(reply) && reply.text() == "Database Error"@,
{
}

/// An anonymous submission whose database step fails aborts.
pub proof fn lemma_open_failure_aborts(f: SubmitFlow, e: SubmitEvent)
    requires
        f.accepts(e),
        f.mode == SubmitMode::Open,
        is_failure(e),
    ensures
        f.next(e).0.stage == SubmitStage::Finished,
        f.next(e).1 is Abort,
{
}

/// A match leaves the queue only when the count of its remaining teams was
/// zero, and it is the match of the scouted team.
pub proof fn lemma_match_dropped_only_when_empty(f: SubmitFlow, e: SubmitEvent)
    requires
        f.accepts(e),
        f.next(e).1 is DropMatch,
    ensures
        e == SubmitEvent::Remaining(Some(0)),
        f.next(e).1 == SubmitAction::DropMatch(f.match_id),
{
}

/// The auto, teleop and endgame rows refer to the report row that was
/// inserted, and the scouted team's queue row is the one removed.
pub proof fn lemma_detail_rows_follow_report(f: SubmitFlow, e: SubmitEvent)
    requires
        f.accepts(e),
    ensures
        f.next(e).1 matches SubmitAction::InsertAuto(row) ==> e == SubmitEvent::EntryId(
            Ok(Some(row.scouting_id)),
        ),
        f.next(e).1 matches SubmitAction::InsertTeleop(row) ==> row.scouting_id == f.scouting_id,
        f.next(e).1 matches SubmitAction::InsertEndgame(row) ==> row.scouting_id == f.scouting_id,
        f.next(e).1 matches SubmitAction::UnlinkTeam(row) ==> row == f.data.team_row,
        f.next(e).0.scouting_id == f.scouting_id || f.stage == SubmitStage::Entry,
{
}

/// A submission is answered as stored only after its last database step
/// succeeded: the count of remaining teams was read, and, when it was zero,
/// the match was removed.
pub proof fn lemma_submitted_after_last_step(f: SubmitFlow, e: SubmitEvent)
    requires
        f.accepts(e),
        f.next(e).1 == SubmitAction::Reply(SubmitReply::Submitted),
    ensures
        (f.stage == SubmitStage::Count && (e matches SubmitEvent::Remaining(Some(n)) && n != 0)) || (
        f.stage == SubmitStage::DropMatch && e == SubmitEvent::Written(true)),
{
}

/// Once the scout is known, no step changes the report or who submits it.
pub proof fn lemma_steps_keep_report(f: SubmitFlow, e: SubmitEvent)
    requires
        f.accepts(e),
        f.stage != SubmitStage::User,
    ensures
        f.next(e).0.data == f.data,
        f.next(e).0.mode == f.mode,
        f.next(e).0.score == f.score,
{
}

/// Each row that a step inserts carries the report's own values, column by
/// column: the report row its metadata, the scout's name from the lookup and
/// the score computed up front; the auto, teleop and endgame rows the counts
/// of their own period, each count in the column of its own name.
pub proof fn lemma_rows_carry_report(f: SubmitFlow, e: SubmitEvent)
    requires
        f.accepts(e),
    ensures
        f.next(e).1 matches SubmitAction::InsertEntry(row) ==> (e matches SubmitEvent::User(
            Lookup::Found((true, name)),
        ) && row.user == name) && row.team == f.data.team && row.matchid == f.data.matchid
            && row.total_score == f.score->0 && row.event_code == f.data.event_code
            && row.tournament_level == f.data.level && row.station == f.data.station,
        f.next(e).1 matches SubmitAction::InsertAuto(row) ==> row.moved == f.data.moved
            && row.l1 == f.data.auto_l1 && row.l2 == f.data.auto_l2 && row.l3 == f.data.auto_l3
            && row.l4 == f.data.auto_l4 && row.algae_processor == f.data.auto_algae_processor
            && row.algae_barge == f.data.auto_algae_barge
            && row.algae_remove == f.data.auto_algae_remove,
        f.next(e).1 matches SubmitAction::InsertTeleop(row) ==> row.l1 == f.data.teleop_l1
            && row.l2 == f.data.teleop_l2 && row.l3 == f.data.teleop_l3
            && row.l4 == f.data.teleop_l4 && row.algae_processor == f.data.teleop_algae_processor
            && row.algae_barge == f.data.teleop_algae_barge
            && row.algae_remove == f.data.teleop_algae_remove,
        f.next(e).1 matches SubmitAction::InsertEndgame(row) ==> row.died == f.data.died
            && row.defense_rating == f.data.defense_rating && row.climb_type == f.data.climb_type
            && row.comment == f.data.comment,
{
}

} // verus!
