//! The pit page of a team: its pit row, and its autonomous routines when
//! they were recorded.
use vstd::prelude::*;

use crate::access::Lookup;

verus! {

/// An autonomous-routine row as read, with an optional pit reference.
pub struct PitAutoData {
    pub id: i32,
    pub pit_id: Option<i32>,
    pub left_auto: i32,
    pub center_auto: i32,
    pub right_auto: i32,
    pub amount_of_sides: String,
    pub amount_of_combo_sides: String,
    pub coral_amount: String,
    pub algae_amount: String,
}

/// An autonomous-routine row whose pit reference is known.
pub struct PitAutoData2 {
    pub id: i32,
    pub pit_id: i32,
    pub left_auto: i32,
    pub center_auto: i32,
    pub right_auto: i32,
    pub amount_of_sides: String,
    pub amount_of_combo_sides: String,
    pub coral_amount: String,
    pub algae_amount: String,
}

impl PitAutoData2 {
    /// The row with its pit reference unwrapped.
    pub fn from(data: PitAutoData) -> (r: PitAutoData2)
        requires
            data.pit_id is Some,
        ensures
            r.id == data.id,
            r.pit_id == data.pit_id->0,
            r.left_auto == data.left_auto,
            r.center_auto == data.center_auto,
            r.right_auto == data.right_auto,
            r.amount_of_sides == data.amount_of_sides,
            r.amount_of_combo_sides == data.amount_of_combo_sides,
            r.coral_amount == data.coral_amount,
            r.algae_amount == data.algae_amount,
    {
        PitAutoData2 {
            id: data.id,
            pit_id: data.pit_id.unwrap(),
            left_auto: data.left_auto,
            center_auto: data.center_auto,
            right_auto: data.right_auto,
            amount_of_sides: data.amount_of_sides,
            amount_of_combo_sides: data.amount_of_combo_sides,
            coral_amount: data.coral_amount,
            algae_amount: data.algae_amount,
        }
    }
}

/// Why the pit page cannot be shown.
#[derive(PartialEq, Eq, Structural, Clone, Copy, Debug)]
pub enum ViewPitError {
    NoPitData,
    DbError,
}

impl ViewPitError {
    pub open spec fn text(self) -> Seq<char> {
        match self {
            ViewPitError::NoPitData => "No pit data"@,
            ViewPitError::DbError => "Database Error!"@,
        }
    }

    pub fn message(&self) -> (r: &'static str)
        ensures
            r@ == self.text(),
    {
        match self {
            ViewPitError::NoPitData => "No pit data",
            ViewPitError::DbError => "Database Error!",
        }
    }
}

/// After the lookup of the team's pit row: the row, or why the page cannot
/// be shown.
pub fn view_pit_row<T>(pit: Lookup<T>) -> (r: Result<T, ViewPitError>)
    ensures
        match pit {
            Lookup::Found(row) => r == Ok::<T, ViewPitError>(row),
            Lookup::Missing => r == Err::<T, ViewPitError>(ViewPitError::NoPitData),
            Lookup::Failed => r == Err::<T, ViewPitError>(ViewPitError::DbError),
        },
{
    match pit {
        Lookup::Found(row) => Ok(row),
        Lookup::Missing => Err(ViewPitError::NoPitData),
        Lookup::Failed => Err(ViewPitError::DbError),
    }
}

/// After the lookup of the team's autonomous routines: the row to show
/// beside the pit row, or `None` for the pit row alone (no row, or a failed
/// lookup). A row read without its pit reference stops the request.
pub fn view_pit_auto(auto: Lookup<PitAutoData>) -> (r: Option<PitAutoData2>)
    requires
        auto matches Lookup::Found(a) ==> a.pit_id is Some,
    ensures
        auto is Found <==> r is Some,
        auto matches Lookup::Found(a) ==> (r matches Some(b) && b.id == a.id && b.pit_id == a.pit_id->0
            && b.left_auto == a.left_auto && b.center_auto == a.center_auto && b.right_auto
            == a.right_auto && b.amount_of_sides == a.amount_of_sides && b.amount_of_combo_sides
            == a.amount_of_combo_sides && b.coral_amount == a.coral_amount && b.algae_amount
            == a.algae_amount),
{
    match auto {
        Lookup::Found(a) => Some(PitAutoData2::from(a)),
        _ => None,
    }
}

} // verus!
