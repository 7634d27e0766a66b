//! The game-piece part of a scouting report, as a form or a JSON body holds
//! it.
use vstd::prelude::*;

verus! {

/// Counts of an auto and a teleop period, and the endgame.
pub struct ScoutingForm {
    // Auto
    pub auto_l1: i32,
    pub auto_l2: i32,
    pub auto_l3: i32,
    pub auto_l4: i32,
    pub auto_algae_processor: i32,
    pub auto_algae_barge: i32,
    pub auto_algae_remove: i32,
    // Teleop
    pub teleop_l1: i32,
    pub teleop_l2: i32,
    pub teleop_l3: i32,
    pub teleop_l4: i32,
    pub teleop_algae_processor: i32,
    pub teleop_algae_barge: i32,
    pub teleop_algae_remove: i32,
    // Endgame
    pub defense_rating: i32,
    pub climb_type: String,
    pub comment: String,
}

} // verus!
