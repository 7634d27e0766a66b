//! Pit scouting: a team's robot capabilities and its autonomous routines,
//! posted as yes/no and free-text fields, turned into the stored records.
use vstd::prelude::*;
use vstd::string::*;

use crate::submission::yes_flag;
use crate::text::str_eq;

verus! {

/// The pit scouting form.
pub struct Pit_Submit_data {
    pub team: i32,
    pub event_code: String,
    pub algae_processor: String,
    pub algae_barge: String,
    pub algae_remove: String,
    pub auto_align: String,
    pub l1: String,
    pub l2: String,
    pub l3: String,
    pub l4: String,
    pub ground_intake: String,
    pub climber: String,
    pub height: String,
    pub widthxlength: String,
    pub weight: String,
    pub defence: String,
    pub driver_years_experience: String,
    pub comment: Option<String>,
}

/// The pit form for a team's autonomous routines.
pub struct pitAutoSubmit {
    pub team: i32,
    pub event_code: String,
    pub left_auto: String,
    pub center_auto: String,
    pub right_auto: String,
    pub amount_of_sides: Option<String>,
    pub amount_of_combo_sides: Option<String>,
    pub coral_amount: String,
    pub algae_amount: String,
}

/// A yes/no answer of a pit form: `yes` is true, `no` and anything else
/// false.
pub fn parse_out_bool(val: &str) -> (r: bool)
    ensures
        r == yes_flag(val@),
{
    if str_eq(val, "yes") {
        true
    } else if str_eq(val, "no") {
        false
    } else {
        false
    }
}

/// The text of an optional field, empty when it is missing.
pub open spec fn text_or_empty(field: Option<String>) -> Seq<char> {
    match field {
        Some(s) => s@,
        None => Seq::empty(),
    }
}

/// The text of an optional field, or an empty string.
pub fn or_empty(field: Option<String>) -> (r: String)
    ensures
        r@ == text_or_empty(field),
{
    match field {
        Some(s) => s,
        None => String::new(),
    }
}

/// The `pit_data` row of a pit form.
pub struct PitRecord {
    pub auto_align: bool,
    pub team: i32,
    pub event_code: String,
    pub algae_processor: bool,
    pub algae_barge: bool,
    pub algae_remove: bool,
    pub l1: bool,
    pub l2: bool,
    pub l3: bool,
    pub l4: bool,
    pub ground_intake: bool,
    pub climber: bool,
    pub height: String,
    pub widthxlength: String,
    pub weight: String,
    pub defence: bool,
    pub driver_years_experience: String,
    pub comment: String,
}

/// The row of a pit form: each yes/no answer read with `parse_out_bool`, the
/// free-text answers as given, a missing comment empty.
pub fn pit_record(form: Pit_Submit_data) -> (r: PitRecord)
    ensures
        r.auto_align == yes_flag(form.auto_align@),
        r.team == form.team,
        r.event_code == form.event_code,
        r.algae_processor == yes_flag(form.algae_processor@),
        r.algae_barge == yes_flag(form.algae_barge@),
        r.algae_remove == yes_flag(form.algae_remove@),
        r.l1 == yes_flag(form.l1@),
        r.l2 == yes_flag(form.l2@),
        r.l3 == yes_flag(form.l3@),
        r.l4 == yes_flag(form.l4@),
        r.ground_intake == yes_flag(form.ground_intake@),
        r.climber == yes_flag(form.climber@),
        r.height == form.height,
        r.widthxlength == form.widthxlength,
        r.weight == form.weight,
        r.defence == yes_flag(form.defence@),
        r.driver_years_experience == form.driver_years_experience,
        r.comment@ == text_or_empty(form.comment),
{
    let algae_processor = parse_out_bool(form.algae_processor.as_str());
    let algae_barge = parse_out_bool(form.algae_barge.as_str());
    let algae_remove = parse_out_bool(form.algae_remove.as_str());
    let l1 = parse_out_bool(form.l1.as_str());
    let l2 = parse_out_bool(form.l2.as_str());
    let l3 = parse_out_bool(form.l3.as_str());
    let l4 = parse_out_bool(form.l4.as_str());
    let defence = parse_out_bool(form.defence.as_str());
    let ground_intake = parse_out_bool(form.ground_intake.as_str());
    let climber = parse_out_bool(form.climber.as_str());
    let auto_align = parse_out_bool(form.auto_align.as_str());
    let comment = or_empty(form.comment);
    PitRecord {
        auto_align,
        team: form.team,
        event_code: form.event_code,
        algae_processor,
        algae_barge,
        algae_remove,
        l1,
        l2,
        l3,
        l4,
        ground_intake,
        climber,
        height: form.height,
        widthxlength: form.widthxlength,
        weight: form.weight,
        defence,
        driver_years_experience: form.driver_years_experience,
        comment,
    }
}

/// How a pit form is answered.
#[derive(PartialEq, Eq, Structural, Clone, Copy, Debug)]
pub enum PitReply {
    /// The confirmation page.
    Saved,
    /// The error page with `Database error`.
    DbError,
}

impl PitReply {
    /// The error text, if the reply is an error.
    pub open spec fn text(self) -> Option<Seq<char>> {
        match self {
            PitReply::Saved => None,
            PitReply::DbError => Some("Database error"@),
        }
    }

    pub fn message(&self) -> (r: Option<&'static str>)
        ensures
            r matches Some(m) ==> self.text() == Some(m@),
            r is None ==> self.text() is None,
    {
        match self {
            PitReply::Saved => None,
            PitReply::DbError => Some("Database error"),
        }
    }
}

/// The answer to a pit form once its row was stored, or not.
pub fn pit_submit_reply(stored: bool) -> (r: PitReply)
    ensures
        r == if stored { PitReply::Saved } else { PitReply::DbError },
{
    if stored {
        PitReply::Saved
    } else {
        PitReply::DbError
    }
}

/// The `pit_auto_data` row of an autonomous-routine form.
pub struct PitAutoRecord {
    pub pit_id: i32,
    pub left_auto: bool,
    pub center_auto: bool,
    pub right_auto: bool,
    pub amount_of_sides: String,
    pub amount_of_combo_sides: String,
    pub coral_amount: String,
    pub algae_amount: String,
}

/// After the lookup of the team's pit row (`None` when it failed): the
/// `Database error` answer, or the autonomous-routine row to store, which
/// refers to the pit row. The answer to the form does not depend on whether
/// that row is stored.
pub fn pit_auto_after_lookup(form: pitAutoSubmit, pit_id: Option<i32>) -> (r: Result<PitAutoRecord, PitReply>)
    ensures
        pit_id is None ==> r == Err::<PitAutoRecord, PitReply>(PitReply::DbError),
        pit_id matches Some(id) ==> (r matches Ok(row) && row.pit_id == id && row.left_auto == yes_flag(
            form.left_auto@,
        ) && row.center_auto == yes_flag(form.center_auto@) && row.right_auto == yes_flag(form.right_auto@)
            && row.amount_of_sides@ == text_or_empty(form.amount_of_sides) && row.amount_of_combo_sides@
            == text_or_empty(form.amount_of_combo_sides) && row.coral_amount == form.coral_amount
            && row.algae_amount == form.algae_amount),
{
    match pit_id {
        None => Err(PitReply::DbError),
        Some(id) => {
            let left_auto = parse_out_bool(form.left_auto.as_str());
            let center_auto = parse_out_bool(form.center_auto.as_str());
            let right_auto = parse_out_bool(form.right_auto.as_str());
            Ok(
                PitAutoRecord {
                    pit_id: id,
                    left_auto,
                    center_auto,
                    right_auto,
                    amount_of_sides: or_empty(form.amount_of_sides),
                    amount_of_combo_sides: or_empty(form.amount_of_combo_sides),
                    coral_amount: form.coral_amount,
                    algae_amount: form.algae_amount,
                },
            )
        },
    }
}

} // verus!
