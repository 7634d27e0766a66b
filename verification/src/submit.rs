//! Scoring of a scouting report, and the preparation of a report submitted
//! by a logged-in scout.
use vstd::prelude::*;

use crate::access::{parse_user_id, uuid_from_text, Lookup, WriteRefusal};
use crate::submission::{
    level_label, level_text, says_yes, station_label, station_text, yes_flag, SubmitAction,
    SubmitEvent, SubmitFlow, SubmitMode, SubmitReply, SubmitStage, Submission,
};
use crate::text::str_eq;
use crate::ScoutingForm;

verus! {

// Auto points per piece
pub const auto_l4_amount: i32 = 7;
pub const auto_l3_amount: i32 = 6;
pub const auto_l2_amount: i32 = 4;
pub const auto_l1_amount: i32 = 3;
pub const auto_algae_processor_amount: i32 = 2;
pub const auto_algae_barge_amount: i32 = 4;

// Teleop points per piece
pub const teleop_l4_amount: i32 = 5;
pub const teleop_l3_amount: i32 = 4;
pub const teleop_l2_amount: i32 = 3;
pub const teleop_l1_amount: i32 = 2;
pub const teleop_algae_processor_amount: i32 = 2;
pub const teleop_algae_barge_amount: i32 = 2;

/// `x` is a value of `i32`.
pub open spec fn fits_i32(x: int) -> bool {
    i32::MIN <= x <= i32::MAX
}

/// Adding six terms left to right in `i32` stays in range at every step.
pub open spec fn sum6_fits(a: int, b: int, c: int, d: int, e: int, f: int) -> bool {
    &&& fits_i32(a) && fits_i32(b) && fits_i32(c) && fits_i32(d) && fits_i32(e) && fits_i32(f)
    &&& fits_i32(a + b)
    &&& fits_i32(a + b + c)
    &&& fits_i32(a + b + c + d)
    &&& fits_i32(a + b + c + d + e)
    &&& fits_i32(a + b + c + d + e + f)
}

/// The points for the climb: deep 12, shallow 7, park 2, anything else 0.
pub open spec fn climb_points(climb: Seq<char>) -> int {
    if climb == "deep"@ {
        12
    } else if climb == "shallow"@ {
        7
    } else if climb == "park"@ {
        2
    } else {
        0
    }
}

/// Points scored in the autonomous period, from the counts of coral on
/// levels 4 to 1 and of algae in the processor and the barge.
pub open spec fn auto_points(l4: int, l3: int, l2: int, l1: int, processor: int, barge: int) -> int {
    auto_l4_amount * l4 + auto_l3_amount * l3 + auto_l2_amount * l2 + auto_l1_amount * l1
        + auto_algae_processor_amount * processor + auto_algae_barge_amount * barge
}

/// Points scored in the teleoperated period, from the same counts.
pub open spec fn teleop_points(l4: int, l3: int, l2: int, l1: int, processor: int, barge: int) -> int {
    teleop_l4_amount * l4 + teleop_l3_amount * l3 + teleop_l2_amount * l2 + teleop_l1_amount * l1
        + teleop_algae_processor_amount * processor + teleop_algae_barge_amount * barge
}

/// The score of a report: auto points, teleop points and climb points.
/// Algae removed in either period scores nothing.
pub open spec fn report_score(
    a4: int, a3: int, a2: int, a1: int, ap: int, ab: int,
    t4: int, t3: int, t2: int, t1: int, tp: int, tb: int,
    climb: Seq<char>,
) -> int {
    auto_points(a4, a3, a2, a1, ap, ab) + teleop_points(t4, t3, t2, t1, tp, tb) + climb_points(climb)
}

/// The score of a report can be computed in `i32` without overflow, every
/// product and every partial sum taken in the order the sum is written.
pub open spec fn report_score_fits(
    a4: int, a3: int, a2: int, a1: int, ap: int, ab: int,
    t4: int, t3: int, t2: int, t1: int, tp: int, tb: int,
    climb: Seq<char>,
) -> bool {
    &&& sum6_fits(
        auto_l4_amount * a4,
        auto_l3_amount * a3,
        auto_l2_amount * a2,
        auto_l1_amount * a1,
        auto_algae_processor_amount * ap,
        auto_algae_barge_amount * ab,
    )
    &&& sum6_fits(
        teleop_l4_amount * t4,
        teleop_l3_amount * t3,
        teleop_l2_amount * t2,
        teleop_l1_amount * t1,
        teleop_algae_processor_amount * tp,
        teleop_algae_barge_amount * tb,
    )
    &&& fits_i32(auto_points(a4, a3, a2, a1, ap, ab) + teleop_points(t4, t3, t2, t1, tp, tb))
    &&& fits_i32(report_score(a4, a3, a2, a1, ap, ab, t4, t3, t2, t1, tp, tb, climb))
}

/// The score of a scouting form.
pub open spec fn form_score(form: ScoutingForm) -> int {
    report_score(
        form.auto_l4 as int, form.auto_l3 as int, form.auto_l2 as int, form.auto_l1 as int,
        form.auto_algae_processor as int, form.auto_algae_barge as int,
        form.teleop_l4 as int, form.teleop_l3 as int, form.teleop_l2 as int, form.teleop_l1 as int,
        form.teleop_algae_processor as int, form.teleop_algae_barge as int,
        form.climb_type@,
    )
}

/// The score of a scouting form is computable in `i32`.
pub open spec fn form_score_fits(form: ScoutingForm) -> bool {
    report_score_fits(
        form.auto_l4 as int, form.auto_l3 as int, form.auto_l2 as int, form.auto_l1 as int,
        form.auto_algae_processor as int, form.auto_algae_barge as int,
        form.teleop_l4 as int, form.teleop_l3 as int, form.teleop_l2 as int, form.teleop_l1 as int,
        form.teleop_algae_processor as int, form.teleop_algae_barge as int,
        form.climb_type@,
    )
}

/// The climb points of a climb text.
pub fn climb_bonus(climb: &str) -> (r: i32)
    ensures
        r as int == climb_points(climb@),
{
    if str_eq(climb, "deep") {
        12
    } else if str_eq(climb, "shallow") {
        7
    } else if str_eq(climb, "park") {
        2
    } else {
        0
    }
}

/// Six terms added left to right stay in range at every step.
pub fn sum6_in_range(a: i64, b: i64, c: i64, d: i64, e: i64, f: i64) -> (r: bool)
    requires
        -0x10_0000_0000 <= a <= 0x10_0000_0000,
        -0x10_0000_0000 <= b <= 0x10_0000_0000,
        -0x10_0000_0000 <= c <= 0x10_0000_0000,
        -0x10_0000_0000 <= d <= 0x10_0000_0000,
        -0x10_0000_0000 <= e <= 0x10_0000_0000,
        -0x10_0000_0000 <= f <= 0x10_0000_0000,
    ensures
        r == sum6_fits(a as int, b as int, c as int, d as int, e as int, f as int),
{
    let lo: i64 = -2147483648;
    let hi: i64 = 2147483647;
    lo <= a && a <= hi && lo <= b && b <= hi && lo <= c && c <= hi && lo <= d && d <= hi && lo <= e
        && e <= hi && lo <= f && f <= hi && lo <= a + b && a + b <= hi && lo <= a + b + c && a + b
        + c <= hi && lo <= a + b + c + d && a + b + c + d <= hi && lo <= a + b + c + d + e && a + b
        + c + d + e <= hi && lo <= a + b + c + d + e + f && a + b + c + d + e + f <= hi
}

/// Whether the score of a report can be computed in `i32`.
pub fn score_in_range(
    a4: i32, a3: i32, a2: i32, a1: i32, ap: i32, ab: i32,
    t4: i32, t3: i32, t2: i32, t1: i32, tp: i32, tb: i32,
    climb: &str,
) -> (r: bool)
    ensures
        r == report_score_fits(
            a4 as int, a3 as int, a2 as int, a1 as int, ap as int, ab as int,
            t4 as int, t3 as int, t2 as int, t1 as int, tp as int, tb as int,
            climb@,
        ),
{
    let a4w = 7 * (a4 as i64);
    let a3w = 6 * (a3 as i64);
    let a2w = 4 * (a2 as i64);
    let a1w = 3 * (a1 as i64);
    let apw = 2 * (ap as i64);
    let abw = 4 * (ab as i64);
    let t4w = 5 * (t4 as i64);
    let t3w = 4 * (t3 as i64);
    let t2w = 3 * (t2 as i64);
    let t1w = 2 * (t1 as i64);
    let tpw = 2 * (tp as i64);
    let tbw = 2 * (tb as i64);
    let auto_ok = sum6_in_range(a4w, a3w, a2w, a1w, apw, abw);
    let teleop_ok = sum6_in_range(t4w, t3w, t2w, t1w, tpw, tbw);
    let auto_total = a4w + a3w + a2w + a1w + apw + abw;
    let teleop_total = t4w + t3w + t2w + t1w + tpw + tbw;
    let climb_total = climb_bonus(climb) as i64;
    let lo: i64 = -2147483648;
    let hi: i64 = 2147483647;
    auto_ok && teleop_ok && lo <= auto_total + teleop_total && auto_total + teleop_total <= hi && lo
        <= auto_total + teleop_total + climb_total && auto_total + teleop_total + climb_total <= hi
}

/// Whether `calculate_final_score` can score this form without overflow.
pub fn score_computable(form: &ScoutingForm) -> (r: bool)
    ensures
        r == form_score_fits(*form),
{
    score_in_range(
        form.auto_l4, form.auto_l3, form.auto_l2, form.auto_l1,
        form.auto_algae_processor, form.auto_algae_barge,
        form.teleop_l4, form.teleop_l3, form.teleop_l2, form.teleop_l1,
        form.teleop_algae_processor, form.teleop_algae_barge,
        form.climb_type.as_str(),
    )
}

/// The score of a report: weighted auto and teleop pieces plus the climb.
pub fn calculate_final_score(form: &ScoutingForm) -> (r: i32)
    requires
        form_score_fits(*form),
    ensures
        r as int == form_score(*form),
        r as int == 7 * form.auto_l4 + 6 * form.auto_l3 + 4 * form.auto_l2
            + 3 * form.auto_l1 + 2 * form.auto_algae_processor + 4 * form.auto_algae_barge
            + 5 * form.teleop_l4 + 4 * form.teleop_l3 + 3 * form.teleop_l2 + 2 * form.teleop_l1
            + 2 * form.teleop_algae_processor + 2 * form.teleop_algae_barge
            + climb_points(form.climb_type@),
{
    let auto_coral = (auto_l4_amount * form.auto_l4) + (auto_l3_amount * form.auto_l3) + (
    auto_l2_amount * form.auto_l2) + (auto_l1_amount * form.auto_l1) + (auto_algae_processor_amount
        * form.auto_algae_processor) + (auto_algae_barge_amount * form.auto_algae_barge);

    let teleop_coral = (teleop_l4_amount * form.teleop_l4) + (teleop_l3_amount * form.teleop_l3) + (
    teleop_l2_amount * form.teleop_l2) + (teleop_l1_amount * form.teleop_l1) + (
    teleop_algae_processor_amount * form.teleop_algae_processor) + (teleop_algae_barge_amount
        * form.teleop_algae_barge);

    let climb = climb_bonus(form.climb_type.as_str());

    auto_coral + teleop_coral + climb
}

/// `d` holds what is stored of the report `form`, the scout's name aside.
pub open spec fn prepared(form: ScoutingForm, d: Submission) -> bool {
    &&& d.team == form.team
    &&& d.matchid == form.matchid
    &&& d.event_code == form.event_code
    &&& d.level@ == level_label(form.tournament_level@)
    &&& d.station@ == station_label(form.station@)
    &&& d.team_row == form.id
    &&& d.moved == yes_flag(form.moved@)
    &&& d.auto_l1 == form.auto_l1
    &&& d.auto_l2 == form.auto_l2
    &&& d.auto_l3 == form.auto_l3
    &&& d.auto_l4 == form.auto_l4
    &&& d.auto_algae_processor == form.auto_algae_processor
    &&& d.auto_algae_barge == form.auto_algae_barge
    &&& d.auto_algae_remove == form.auto_algae_remove
    &&& d.teleop_l1 == form.teleop_l1
    &&& d.teleop_l2 == form.teleop_l2
    &&& d.teleop_l3 == form.teleop_l3
    &&& d.teleop_l4 == form.teleop_l4
    &&& d.teleop_algae_processor == form.teleop_algae_processor
    &&& d.teleop_algae_barge == form.teleop_algae_barge
    &&& d.teleop_algae_remove == form.teleop_algae_remove
    &&& d.died == yes_flag(form.died@)
    &&& d.defense_rating == form.defense_rating
    &&& d.climb_type == form.climb_type
    &&& d.comment == form.comment
}

/// Start of a logged-in scout's submission. The session cookie names the
/// scout (a missing cookie reads as the text `Not logined in`, which is no
/// user id); the report is prepared, and scored where the score fits.
pub fn submit_page_start(cookie: Option<&str>, form: ScoutingForm) -> (r: (SubmitFlow, SubmitAction))
    ensures
        r.0.mode == SubmitMode::Member,
        prepared(form, r.0.data),
        r.0.score == if form_score_fits(form) {
            Some(form_score(form) as i32)
        } else {
            None::<i32>
        },
        ({
            let text = match cookie {
                Some(t) => t@,
                None => "Not logined in"@,
            };
            match uuid_from_text(text) {
                None => r.0.stage == SubmitStage::Finished && r.1 == SubmitAction::Reply(
                    SubmitReply::Refused(WriteRefusal::NotLoggedIn),
                ),
                Some(id) => r.0.stage == SubmitStage::User && r.1 == SubmitAction::LookupUser(id),
            }
        }),
{
    let text: &str = match cookie {
        Some(t) => t,
        None => "Not logined in",
    };
    let id = parse_user_id(text);
    let score = if score_computable(&form) {
        Some(calculate_final_score(&form))
    } else {
        None
    };
    let level = level_text(form.tournament_level.as_str());
    let station = station_text(form.station.as_str());
    let moved = says_yes(form.moved.as_str());
    let died = says_yes(form.died.as_str());
    let data = Submission {
        user: String::new(),
        team: form.team,
        matchid: form.matchid,
        total_score: 0,
        event_code: form.event_code,
        level,
        station,
        team_row: form.id,
        moved,
        auto_l1: form.auto_l1,
        auto_l2: form.auto_l2,
        auto_l3: form.auto_l3,
        auto_l4: form.auto_l4,
        auto_algae_processor: form.auto_algae_processor,
        auto_algae_barge: form.auto_algae_barge,
        auto_algae_remove: form.auto_algae_remove,
        teleop_l1: form.teleop_l1,
        teleop_l2: form.teleop_l2,
        teleop_l3: form.teleop_l3,
        teleop_l4: form.teleop_l4,
        teleop_algae_processor: form.teleop_algae_processor,
        teleop_algae_barge: form.teleop_algae_barge,
        teleop_algae_remove: form.teleop_algae_remove,
        died,
        defense_rating: form.defense_rating,
        climb_type: form.climb_type,
        comment: form.comment,
    };
    match id {
        None => (
            SubmitFlow {
                mode: SubmitMode::Member,
                data,
                score,
                scouting_id: 0,
                match_id: 0,
                stage: SubmitStage::Finished,
            },
            SubmitAction::Reply(SubmitReply::Refused(WriteRefusal::NotLoggedIn)),
        ),
        Some(user_id) => (
            SubmitFlow {
                mode: SubmitMode::Member,
                data,
                score,
                scouting_id: 0,
                match_id: 0,
                stage: SubmitStage::User,
            },
            SubmitAction::LookupUser(user_id),
        ),
    }
}

/// Scoring more pieces never lowers a report's score: every piece is worth
/// points or nothing.
pub proof fn lemma_more_pieces_never_lower_score(low: ScoutingForm, high: ScoutingForm)
    requires
        low.auto_l4 <= high.auto_l4,
        low.auto_l3 <= high.auto_l3,
        low.auto_l2 <= high.auto_l2,
        low.auto_l1 <= high.auto_l1,
        low.auto_algae_processor <= high.auto_algae_processor,
        low.auto_algae_barge <= high.auto_algae_barge,
        low.teleop_l4 <= high.teleop_l4,
        low.teleop_l3 <= high.teleop_l3,
        low.teleop_l2 <= high.teleop_l2,
        low.teleop_l1 <= high.teleop_l1,
        low.teleop_algae_processor <= high.teleop_algae_processor,
        low.teleop_algae_barge <= high.teleop_algae_barge,
        low.climb_type@ == high.climb_type@,
    ensures
        form_score(low) <= form_score(high),
{
}

/// A deep climb is worth more than a shallow one, a shallow one more than a
/// park, and a park more than no climb.
pub proof fn lemma_climb_ranking(other: Seq<char>)
    requires
        other != "deep"@,
        other != "shallow"@,
        other != "park"@,
    ensures
        climb_points("deep"@) > climb_points("shallow"@),
        climb_points("shallow"@) > climb_points("park"@),
        climb_points("park"@) > climb_points(other),
        climb_points(other) == 0,
{
    reveal_strlit("deep");
    reveal_strlit("shallow");
    reveal_strlit("park");
    assert("shallow"@.len() != "deep"@.len());
    assert("park"@[0] != "deep"@[0]);
    assert("park"@.len() != "shallow"@.len());
}

/// Every step keeps what was prepared of a logged-in scout's report: the
/// rows that later steps insert are taken from the form as it was posted.
pub proof fn lemma_steps_keep_prepared_report(form: ScoutingForm, f: SubmitFlow, e: SubmitEvent)
    requires
        prepared(form, f.data),
        f.accepts(e),
    ensures
        prepared(form, f.next(e).0.data),
{
}

/// Once the report row of a logged-in scout's report has its id, the auto
/// row inserted next carries the form's own auto counts, each in the column
/// of its own name, and refers to that report row.
pub proof fn lemma_auto_row_holds_form_counts(form: ScoutingForm, f: SubmitFlow, id: i64)
    requires
        prepared(form, f.data),
        f.stage == SubmitStage::Entry,
    ensures
        f.next(SubmitEvent::EntryId(Ok(Some(id)))).1 matches SubmitAction::InsertAuto(row)
            && row.scouting_id == id && row.moved == yes_flag(form.moved@)
            && row.l1 == form.auto_l1 && row.l2 == form.auto_l2 && row.l3 == form.auto_l3
            && row.l4 == form.auto_l4 && row.algae_processor == form.auto_algae_processor
            && row.algae_barge == form.auto_algae_barge
            && row.algae_remove == form.auto_algae_remove,
{
}

/// Once the auto row is written, the teleop row inserted next carries the
/// form's own teleop counts, each in the column of its own name.
pub proof fn lemma_teleop_row_holds_form_counts(form: ScoutingForm, f: SubmitFlow)
    requires
        prepared(form, f.data),
        f.stage == SubmitStage::Auto,
    ensures
        f.next(SubmitEvent::Written(true)).1 matches SubmitAction::InsertTeleop(row)
            && row.scouting_id == f.scouting_id
            && row.l1 == form.teleop_l1 && row.l2 == form.teleop_l2 && row.l3 == form.teleop_l3
            && row.l4 == form.teleop_l4 && row.algae_processor == form.teleop_algae_processor
            && row.algae_barge == form.teleop_algae_barge
            && row.algae_remove == form.teleop_algae_remove,
{
}

/// Once the teleop row is written, the endgame row inserted next carries the
/// form's endgame answers.
pub proof fn lemma_endgame_row_holds_form_answers(form: ScoutingForm, f: SubmitFlow)
    requires
        prepared(form, f.data),
        f.stage == SubmitStage::Teleop,
    ensures
        f.next(SubmitEvent::Written(true)).1 matches SubmitAction::InsertEndgame(row)
            && row.scouting_id == f.scouting_id && row.died == yes_flag(form.died@)
            && row.defense_rating == form.defense_rating && row.climb_type == form.climb_type
            && row.comment == form.comment,
{
}

/// The report row of a logged-in scout who may write carries the form's
/// metadata, the scout's name from the lookup, and the score of the form:
/// its weighted pieces plus its climb points.
pub proof fn lemma_entry_row_holds_form(form: ScoutingForm, f: SubmitFlow, name: String)
    requires
        prepared(form, f.data),
        f.stage == SubmitStage::User,
        f.mode == SubmitMode::Member,
        f.score == Some(form_score(form) as i32),
        form_score_fits(form),
    ensures
        f.next(SubmitEvent::User(Lookup::Found((true, name)))).1 matches SubmitAction::InsertEntry(row)
            && row.user == name && row.team == form.team && row.matchid == form.matchid
            && row.event_code == form.event_code
            && row.tournament_level@ == level_label(form.tournament_level@)
            && row.station@ == station_label(form.station@)
            && row.total_score as int == 7 * form.auto_l4 + 6 * form.auto_l3 + 4 * form.auto_l2
                + 3 * form.auto_l1 + 2 * form.auto_algae_processor + 4 * form.auto_algae_barge
                + 5 * form.teleop_l4 + 4 * form.teleop_l3 + 3 * form.teleop_l2 + 2 * form.teleop_l1
                + 2 * form.teleop_algae_processor + 2 * form.teleop_algae_barge
                + climb_points(form.climb_type@),
{
}

/// The score of a report is its weighted pieces plus its climb points,
/// whatever they are: coral on levels 4, 3, 2, 1 is worth 7, 6, 4, 3 in auto
/// and 5, 4, 3, 2 in teleop; algae in the processor 2 in both periods, in the
/// barge 4 in auto and 2 in teleop; removed algae nothing.
pub proof fn lemma_form_score_is_weighted_sum(form: ScoutingForm)
    ensures
        form_score(form) == 7 * form.auto_l4 + 6 * form.auto_l3 + 4 * form.auto_l2
        + 3 * form.auto_l1 + 2 * form.auto_algae_processor + 4 * form.auto_algae_barge
        + 5 * form.teleop_l4 + 4 * form.teleop_l3 + 3 * form.teleop_l2 + 2 * form.teleop_l1
        + 2 * form.teleop_algae_processor + 2 * form.teleop_algae_barge
        + climb_points(form.climb_type@),
{
}

/// The climb adds the same points whatever was scored with pieces: two
/// reports with the same counts differ in score by exactly the difference of
/// their climb points.
pub proof fn lemma_form_score_climb_adds_fixed_points(a: ScoutingForm, b: ScoutingForm)
    requires
        a.auto_l4 == b.auto_l4,
        a.auto_l3 == b.auto_l3,
        a.auto_l2 == b.auto_l2,
        a.auto_l1 == b.auto_l1,
        a.auto_algae_processor == b.auto_algae_processor,
        a.auto_algae_barge == b.auto_algae_barge,
        a.teleop_l4 == b.teleop_l4,
        a.teleop_l3 == b.teleop_l3,
        a.teleop_l2 == b.teleop_l2,
        a.teleop_l1 == b.teleop_l1,
        a.teleop_algae_processor == b.teleop_algae_processor,
        a.teleop_algae_barge == b.teleop_algae_barge,
    ensures
        form_score(a) - form_score(b) == climb_points(a.climb_type@) - climb_points(b.climb_type@),
{
}

/// The climb points: a deep climb 12, a shallow one 7, a park 2, anything
/// else nothing.
pub proof fn lemma_climb_points_table(other: Seq<char>)
    requires
        other != "deep"@,
        other != "shallow"@,
        other != "park"@,
    ensures
        climb_points("deep"@) == 12,
        climb_points("shallow"@) == 7,
        climb_points("park"@) == 2,
        climb_points(other) == 0,
{
    lemma_climb_ranking(other);
}

} // verus!
