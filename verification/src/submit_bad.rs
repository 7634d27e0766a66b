//! Submission of a scouting report by a scout who is not logged in: the
//! scout names themself on the form, and a failed database step aborts the
//! request.
use vstd::prelude::*;
use vstd::string::*;

use crate::submission::{
    level_label, level_text, says_yes, station_label, station_text, yes_flag, SubmitAction,
    SubmitFlow, SubmitMode, SubmitStage, Submission, entry_row,
};
use crate::ScoutingForm;
use crate::submit::{form_score, 
    auto_algae_barge_amount, auto_algae_processor_amount, auto_l1_amount, auto_l2_amount,
    auto_l3_amount, auto_l4_amount, climb_bonus, climb_points, report_score, report_score_fits, score_in_range,
    teleop_algae_barge_amount, teleop_algae_processor_amount, teleop_l1_amount, teleop_l2_amount,
    teleop_l3_amount, teleop_l4_amount,
};

verus! {

/// A scouting report as the anonymous scouting form posts it.
pub struct ScoutingFormBad {
    // Metadata
    pub username: String,
    pub team: i32,
    pub matchid: i32,
    pub event_code: String,
    pub tournament_level: String,
    pub station: String,
    pub id: i32,
    // Auto
    pub moved: String,
    pub auto_l1: i32,
    pub auto_l2: i32,
    pub auto_l3: i32,
    pub auto_l4: i32,
    pub auto_algae_processor: i32,
    pub auto_algae_barge: i32,
    pub auto_algae_remove: i32,
    // Teleop
    pub teleop_l1: i32,
    pub teleop_l2: i32,
    pub teleop_l3: i32,
    pub teleop_l4: i32,
    pub teleop_algae_processor: i32,
    pub teleop_algae_barge: i32,
    pub teleop_algae_remove: i32,
    // Endgame
    pub died: String,
    pub defense_rating: i32,
    pub climb_type: String,
    pub comment: String,
}

/// The score of an anonymous report.
pub open spec fn form_bad_score(form: ScoutingFormBad) -> int {
    report_score(
        form.auto_l4 as int, form.auto_l3 as int, form.auto_l2 as int, form.auto_l1 as int,
        form.auto_algae_processor as int, form.auto_algae_barge as int,
        form.teleop_l4 as int, form.teleop_l3 as int, form.teleop_l2 as int, form.teleop_l1 as int,
        form.teleop_algae_processor as int, form.teleop_algae_barge as int,
        form.climb_type@,
    )
}

/// The score of an anonymous report is computable in `i32`.
pub open spec fn form_bad_score_fits(form: ScoutingFormBad) -> bool {
    report_score_fits(
        form.auto_l4 as int, form.auto_l3 as int, form.auto_l2 as int, form.auto_l1 as int,
        form.auto_algae_processor as int, form.auto_algae_barge as int,
        form.teleop_l4 as int, form.teleop_l3 as int, form.teleop_l2 as int, form.teleop_l1 as int,
        form.teleop_algae_processor as int, form.teleop_algae_barge as int,
        form.climb_type@,
    )
}

/// Whether `calculate_final_score` can score this form without overflow.
pub fn score_computable(form: &ScoutingFormBad) -> (r: bool)
    ensures
        r == form_bad_score_fits(*form),
{
    score_in_range(
        form.auto_l4, form.auto_l3, form.auto_l2, form.auto_l1,
        form.auto_algae_processor, form.auto_algae_barge,
        form.teleop_l4, form.teleop_l3, form.teleop_l2, form.teleop_l1,
        form.teleop_algae_processor, form.teleop_algae_barge,
        form.climb_type.as_str(),
    )
}

/// The score of a report: weighted auto and teleop pieces plus the climb.
pub fn calculate_final_score(form: &ScoutingFormBad) -> (r: i32)
    requires
        form_bad_score_fits(*form),
    ensures
        r as int == form_bad_score(*form),
        r as int == 7 * form.auto_l4 + 6 * form.auto_l3 + 4 * form.auto_l2
            + 3 * form.auto_l1 + 2 * form.auto_algae_processor + 4 * form.auto_algae_barge
            + 5 * form.teleop_l4 + 4 * form.teleop_l3 + 3 * form.teleop_l2 + 2 * form.teleop_l1
            + 2 * form.teleop_algae_processor + 2 * form.teleop_algae_barge
            + climb_points(form.climb_type@),
{
    let auto_coral = (auto_l4_amount * form.auto_l4) + (auto_l3_amount * form.auto_l3) + (
    auto_l2_amount * form.auto_l2) + (auto_l1_amount * form.auto_l1) + (auto_algae_processor_amount
        * form.auto_algae_processor) + (auto_algae_barge_amount * form.auto_algae_barge);

    let teleop_coral = (teleop_l4_amount * form.teleop_l4) + (teleop_l3_amount * form.teleop_l3) + (
    teleop_l2_amount * form.teleop_l2) + (teleop_l1_amount * form.teleop_l1) + (
    teleop_algae_processor_amount * form.teleop_algae_processor) + (teleop_algae_barge_amount
        * form.teleop_algae_barge);

    let climb = climb_bonus(form.climb_type.as_str());

    auto_coral + teleop_coral + climb
}

/// `d` holds what is stored of the anonymous report `form`.
pub open spec fn prepared_bad(form: ScoutingFormBad, d: Submission) -> bool {
    &&& d.user == form.username
    &&& d.team == form.team
    &&& d.matchid == form.matchid
    &&& d.total_score as int == form_bad_score(form)
    &&& d.event_code == form.event_code
    &&& d.level@ == level_label(form.tournament_level@)
    &&& d.station@ == station_label(form.station@)
    &&& d.team_row == form.id
    &&& d.moved == yes_flag(form.moved@)
    &&& d.auto_l1 == form.auto_l1
    &&& d.auto_l2 == form.auto_l2
    &&& d.auto_l3 == form.auto_l3
    &&& d.auto_l4 == form.auto_l4
    &&& d.auto_algae_processor == form.auto_algae_processor
    &&& d.auto_algae_barge == form.auto_algae_barge
    &&& d.auto_algae_remove == form.auto_algae_remove
    &&& d.teleop_l1 == form.teleop_l1
    &&& d.teleop_l2 == form.teleop_l2
    &&& d.teleop_l3 == form.teleop_l3
    &&& d.teleop_l4 == form.teleop_l4
    &&& d.teleop_algae_processor == form.teleop_algae_processor
    &&& d.teleop_algae_barge == form.teleop_algae_barge
    &&& d.teleop_algae_remove == form.teleop_algae_remove
    &&& d.died == yes_flag(form.died@)
    &&& d.defense_rating == form.defense_rating
    &&& d.climb_type == form.climb_type
    &&& d.comment == form.comment
}

/// Start of an anonymous submission: the report is prepared and scored, and
/// its row is inserted first.
pub fn submit_page_start(form: ScoutingFormBad) -> (r: (SubmitFlow, SubmitAction))
    requires
        form_bad_score_fits(form),
    ensures
        r.0.mode == SubmitMode::Open,
        prepared_bad(form, r.0.data),
        r.0.score == Some(r.0.data.total_score),
        r.0.stage == SubmitStage::Entry,
        r.1 == SubmitAction::InsertEntry(entry_row(r.0.data)),
{
    let level = level_text(form.tournament_level.as_str());
    let station = station_text(form.station.as_str());
    let score = calculate_final_score(&form);
    let moved = says_yes(form.moved.as_str());
    let died = says_yes(form.died.as_str());
    let data = Submission {
        user: form.username,
        team: form.team,
        matchid: form.matchid,
        total_score: score,
        event_code: form.event_code,
        level,
        station,
        team_row: form.id,
        moved,
        auto_l1: form.auto_l1,
        auto_l2: form.auto_l2,
        auto_l3: form.auto_l3,
        auto_l4: form.auto_l4,
        auto_algae_processor: form.auto_algae_processor,
        auto_algae_barge: form.auto_algae_barge,
        auto_algae_remove: form.auto_algae_remove,
        teleop_l1: form.teleop_l1,
        teleop_l2: form.teleop_l2,
        teleop_l3: form.teleop_l3,
        teleop_l4: form.teleop_l4,
        teleop_algae_processor: form.teleop_algae_processor,
        teleop_algae_barge: form.teleop_algae_barge,
        teleop_algae_remove: form.teleop_algae_remove,
        died,
        defense_rating: form.defense_rating,
        climb_type: form.climb_type,
        comment: form.comment,
    };
    let row = crate::submission::EntryRow {
        user: data.user.clone(),
        team: data.team,
        matchid: data.matchid,
        total_score: data.total_score,
        event_code: data.event_code.clone(),
        tournament_level: data.level.clone(),
        station: data.station.clone(),
    };
    (
        SubmitFlow {
            mode: SubmitMode::Open,
            data,
            score: Some(score),
            scouting_id: 0,
            match_id: 0,
            stage: SubmitStage::Entry,
        },
        SubmitAction::InsertEntry(row),
    )
}

/// The anonymous form and the logged-in form score the same report alike.
pub proof fn lemma_forms_score_alike(member: ScoutingForm, open: ScoutingFormBad)
    requires
        member.auto_l4 == open.auto_l4,
        member.auto_l3 == open.auto_l3,
        member.auto_l2 == open.auto_l2,
        member.auto_l1 == open.auto_l1,
        member.auto_algae_processor == open.auto_algae_processor,
        member.auto_algae_barge == open.auto_algae_barge,
        member.teleop_l4 == open.teleop_l4,
        member.teleop_l3 == open.teleop_l3,
        member.teleop_l2 == open.teleop_l2,
        member.teleop_l1 == open.teleop_l1,
        member.teleop_algae_processor == open.teleop_algae_processor,
        member.teleop_algae_barge == open.teleop_algae_barge,
        member.climb_type@ == open.climb_type@,
    ensures
        form_score(member) == form_bad_score(open),
{
}

/// The score of a report is its weighted pieces plus its climb points,
/// whatever they are: coral on levels 4, 3, 2, 1 is worth 7, 6, 4, 3 in auto
/// and 5, 4, 3, 2 in teleop; algae in the processor 2 in both periods, in the
/// barge 4 in auto and 2 in teleop; removed algae nothing.
pub proof fn lemma_form_bad_score_is_weighted_sum(form: ScoutingFormBad)
    ensures
        form_bad_score(form) == 7 * form.auto_l4 + 6 * form.auto_l3 + 4 * form.auto_l2
        + 3 * form.auto_l1 + 2 * form.auto_algae_processor + 4 * form.auto_algae_barge
        + 5 * form.teleop_l4 + 4 * form.teleop_l3 + 3 * form.teleop_l2 + 2 * form.teleop_l1
        + 2 * form.teleop_algae_processor + 2 * form.teleop_algae_barge
        + climb_points(form.climb_type@),
{
}

/// The climb adds the same points whatever was scored with pieces: two
/// reports with the same counts differ in score by exactly the difference of
/// their climb points.
pub proof fn lemma_form_bad_score_climb_adds_fixed_points(a: ScoutingFormBad, b: ScoutingFormBad)
    requires
        a.auto_l4 == b.auto_l4,
        a.auto_l3 == b.auto_l3,
        a.auto_l2 == b.auto_l2,
        a.auto_l1 == b.auto_l1,
        a.auto_algae_processor == b.auto_algae_processor,
        a.auto_algae_barge == b.auto_algae_barge,
        a.teleop_l4 == b.teleop_l4,
        a.teleop_l3 == b.teleop_l3,
        a.teleop_l2 == b.teleop_l2,
        a.teleop_l1 == b.teleop_l1,
        a.teleop_algae_processor == b.teleop_algae_processor,
        a.teleop_algae_barge == b.teleop_algae_barge,
    ensures
        form_bad_score(a) - form_bad_score(b) == climb_points(a.climb_type@) - climb_points(b.climb_type@),
{
}

} // verus!
