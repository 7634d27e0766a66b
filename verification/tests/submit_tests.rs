use scouting::access::{Lookup, WriteRefusal};
use scouting::submission::{SubmitAction, SubmitEvent, SubmitMode, SubmitReply, SubmitStage};
use scouting::submit::{calculate_final_score, climb_bonus, score_computable, submit_page_start};
use scouting::submit_bad::{self, ScoutingFormBad};
use scouting::ScoutingForm;

fn form(climb: &str) -> ScoutingForm {
    ScoutingForm {
        team: 254,
        matchid: 12,
        event_code: "2025tacy".to_string(),
        tournament_level: "Qualification".to_string(),
        station: "Blue2".to_string(),
        id: 77,
        moved: "yes".to_string(),
        auto_l1: 1,
        auto_l2: 2,
        auto_l3: 3,
        auto_l4: 4,
        auto_algae_processor: 5,
        auto_algae_barge: 6,
        auto_algae_remove: 7,
        teleop_l1: 8,
        teleop_l2: 9,
        teleop_l3: 10,
        teleop_l4: 11,
        teleop_algae_processor: 12,
        teleop_algae_barge: 13,
        teleop_algae_remove: 14,
        died: "no".to_string(),
        defense_rating: 3,
        climb_type: climb.to_string(),
        comment: "fast".to_string(),
    }
}

fn bad_form(climb: &str) -> ScoutingFormBad {
    let f = form(climb);
    ScoutingFormBad {
        username: "ana".to_string(),
        team: f.team,
        matchid: f.matchid,
        event_code: f.event_code,
        tournament_level: "Playoffs".to_string(),
        station: "Green9".to_string(),
        id: f.id,
        moved: "no".to_string(),
        auto_l1: f.auto_l1,
        auto_l2: f.auto_l2,
        auto_l3: f.auto_l3,
        auto_l4: f.auto_l4,
        auto_algae_processor: f.auto_algae_processor,
        auto_algae_barge: f.auto_algae_barge,
        auto_algae_remove: f.auto_algae_remove,
        teleop_l1: f.teleop_l1,
        teleop_l2: f.teleop_l2,
        teleop_l3: f.teleop_l3,
        teleop_l4: f.teleop_l4,
        teleop_algae_processor: f.teleop_algae_processor,
        teleop_algae_barge: f.teleop_algae_barge,
        teleop_algae_remove: f.teleop_algae_remove,
        died: "yes".to_string(),
        defense_rating: f.defense_rating,
        climb_type: f.climb_type,
        comment: f.comment,
    }
}

// auto: 7*4 + 6*3 + 4*2 + 3*1 + 2*5 + 4*6 = 28 + 18 + 8 + 3 + 10 + 24 = 91
// teleop: 5*11 + 4*10 + 3*9 + 2*8 + 2*12 + 2*13 = 55 + 40 + 27 + 16 + 24 + 26 = 188
#[test]
fn final_score_weights_pieces_and_climb() {
    assert_eq!(calculate_final_score(&form("deep")), 91 + 188 + 12);
    assert_eq!(calculate_final_score(&form("shallow")), 91 + 188 + 7);
    assert_eq!(calculate_final_score(&form("park")), 91 + 188 + 2);
    assert_eq!(calculate_final_score(&form("none")), 91 + 188);
    assert_eq!(calculate_final_score(&form("Deep")), 91 + 188);
}

#[test]
fn both_forms_score_alike() {
    for climb in ["deep", "shallow", "park", ""] {
        assert_eq!(
            calculate_final_score(&form(climb)),
            submit_bad::calculate_final_score(&bad_form(climb))
        );
    }
}

#[test]
fn more_pieces_never_lower_score() {
    let low = form("park");
    let mut high = form("park");
    high.teleop_l1 += 5;
    high.auto_algae_remove += 100;
    assert!(calculate_final_score(&low) <= calculate_final_score(&high));
    assert_eq!(calculate_final_score(&high), calculate_final_score(&low) + 10);
}

#[test]
fn climb_ranking() {
    assert!(climb_bonus("deep") > climb_bonus("shallow"));
    assert!(climb_bonus("shallow") > climb_bonus("park"));
    assert!(climb_bonus("park") > climb_bonus("hang"));
    assert_eq!(climb_bonus("hang"), 0);
}

#[test]
fn overflowing_scores_are_detected() {
    assert!(score_computable(&form("deep")));
    let mut f = form("deep");
    f.auto_l4 = i32::MAX / 7 + 1;
    assert!(!score_computable(&f));
    let mut g = form("deep");
    g.teleop_l1 = i32::MAX / 2;
    g.teleop_l2 = 1000;
    assert!(!score_computable(&g));
    let mut h = form("deep");
    h.auto_l4 = -(i32::MAX / 7);
    assert!(score_computable(&h));
    assert!(!submit_bad::score_computable(&{
        let mut b = bad_form("deep");
        b.teleop_algae_barge = i32::MIN;
        b
    }));
}

#[test]
fn member_submission_runs_all_steps() {
    let (mut flow, action) = submit_page_start(Some("00000000-0000-0000-0000-000000000005"), form("deep"));
    assert_eq!(flow.mode, SubmitMode::Member);
    assert!(matches!(action, SubmitAction::LookupUser(5)));
    let action = flow.step(SubmitEvent::User(Lookup::Found((true, "ana".to_string()))));
    match action {
        SubmitAction::InsertEntry(row) => {
            assert_eq!(row.user, "ana");
            assert_eq!(row.team, 254);
            assert_eq!(row.matchid, 12);
            assert_eq!(row.total_score, 291);
            assert_eq!(row.event_code, "2025tacy");
            assert_eq!(row.tournament_level, "qual");
            assert_eq!(row.station, "Blue2");
            assert_eq!(row.verification_status(), "Unverified");
        }
        _ => panic!("expected the report insert"),
    }
    match flow.step(SubmitEvent::EntryId(Ok(Some(41)))) {
        SubmitAction::InsertAuto(row) => {
            assert_eq!(row.scouting_id, 41);
            assert!(row.moved);
            assert_eq!((row.l1, row.l4, row.algae_remove), (1, 4, 7));
        }
        _ => panic!("expected the auto insert"),
    }
    match flow.step(SubmitEvent::Written(true)) {
        SubmitAction::InsertTeleop(row) => {
            assert_eq!(row.scouting_id, 41);
            assert_eq!((row.l1, row.algae_barge), (8, 13));
        }
        _ => panic!("expected the teleop insert"),
    }
    match flow.step(SubmitEvent::Written(true)) {
        SubmitAction::InsertEndgame(row) => {
            assert_eq!(row.scouting_id, 41);
            assert!(!row.died);
            assert_eq!(row.defense_rating, 3);
            assert_eq!(row.climb_type, "deep");
            assert_eq!(row.comment, "fast");
        }
        _ => panic!("expected the endgame insert"),
    }
    assert!(matches!(flow.step(SubmitEvent::Written(true)), SubmitAction::FindMatchOfTeam(77)));
    assert!(matches!(flow.step(SubmitEvent::MatchOfTeam(Some(9))), SubmitAction::UnlinkTeam(77)));
    assert!(matches!(flow.step(SubmitEvent::Written(true)), SubmitAction::CountTeams(9)));
    assert!(matches!(flow.step(SubmitEvent::Remaining(Some(0))), SubmitAction::DropMatch(9)));
    match flow.step(SubmitEvent::Written(true)) {
        SubmitAction::Reply(r) => {
            assert_eq!(r, SubmitReply::Submitted);
            assert_eq!(r.message(), "Scouting data submitted successfully");
        }
        _ => panic!("expected the reply"),
    }
    assert_eq!(flow.stage, SubmitStage::Finished);
}

#[test]
fn match_with_teams_left_is_kept() {
    let (mut flow, _) = submit_page_start(Some("00000000-0000-0000-0000-000000000005"), form(""));
    flow.step(SubmitEvent::User(Lookup::Found((true, "bo".to_string()))));
    flow.step(SubmitEvent::EntryId(Ok(Some(1))));
    flow.step(SubmitEvent::Written(true));
    flow.step(SubmitEvent::Written(true));
    flow.step(SubmitEvent::Written(true));
    flow.step(SubmitEvent::MatchOfTeam(Some(3)));
    flow.step(SubmitEvent::Written(true));
    assert!(matches!(
        flow.step(SubmitEvent::Remaining(Some(2))),
        SubmitAction::Reply(SubmitReply::Submitted)
    ));
}

#[test]
fn member_refusals_and_failures() {
    let (_, a) = submit_page_start(None, form("deep"));
    match a {
        SubmitAction::Reply(r) => assert_eq!(r.message(), "Not logined in"),
        _ => panic!("expected a refusal"),
    }
    let (_, a) = submit_page_start(Some("garbage"), form("deep"));
    assert!(matches!(a, SubmitAction::Reply(SubmitReply::Refused(WriteRefusal::NotLoggedIn))));

    let id = Some("00000000-0000-0000-0000-000000000005");
    let (mut f, _) = submit_page_start(id, form("deep"));
    match f.step(SubmitEvent::User(Lookup::Found((false, "ana".to_string())))) {
        SubmitAction::Reply(r) => assert_eq!(r.message(), "You don't have writing perms!"),
        _ => panic!("expected a refusal"),
    }
    let (mut f, _) = submit_page_start(id, form("deep"));
    match f.step(SubmitEvent::User(Lookup::Missing)) {
        SubmitAction::Reply(r) => assert_eq!(r.message(), "Can't find user"),
        _ => panic!("expected a refusal"),
    }
    let (mut f, _) = submit_page_start(id, form("deep"));
    match f.step(SubmitEvent::User(Lookup::Failed)) {
        SubmitAction::Reply(r) => assert_eq!(r.message(), "Database Error"),
        _ => panic!("expected a refusal"),
    }
    let (mut f, _) = submit_page_start(id, form("deep"));
    f.step(SubmitEvent::User(Lookup::Found((true, "ana".to_string()))));
    assert!(matches!(f.step(SubmitEvent::EntryId(Err(()))), SubmitAction::Reply(SubmitReply::DbError)));
    let (mut f, _) = submit_page_start(id, form("deep"));
    f.step(SubmitEvent::User(Lookup::Found((true, "ana".to_string()))));
    match f.step(SubmitEvent::EntryId(Ok(None))) {
        SubmitAction::Abort(a) => assert_eq!(a.message(), "Could not get ID"),
        _ => panic!("expected an abort"),
    }
    let (mut f, _) = submit_page_start(id, form("deep"));
    f.step(SubmitEvent::User(Lookup::Found((true, "ana".to_string()))));
    f.step(SubmitEvent::EntryId(Ok(Some(2))));
    f.step(SubmitEvent::Written(true));
    match f.step(SubmitEvent::Written(false)) {
        SubmitAction::Reply(r) => assert_eq!(r.message(), "Database Error"),
        _ => panic!("expected a reply"),
    }
    assert_eq!(f.stage, SubmitStage::Finished);
}

#[test]
fn member_score_is_absent_when_it_overflows() {
    let mut big = form("deep");
    big.auto_l4 = i32::MAX;
    let (flow, _) = submit_page_start(Some("00000000-0000-0000-0000-000000000005"), big);
    assert_eq!(flow.score, None);
}

#[test]
fn anonymous_submission() {
    let (mut flow, action) = submit_bad::submit_page_start(bad_form("park"));
    assert_eq!(flow.mode, SubmitMode::Open);
    match action {
        SubmitAction::InsertEntry(row) => {
            assert_eq!(row.user, "ana");
            assert_eq!(row.total_score, 91 + 188 + 2);
            assert_eq!(row.tournament_level, "Playoff");
            assert_eq!(row.station, "Red1");
        }
        _ => panic!("expected the report insert"),
    }
    match flow.step(SubmitEvent::EntryId(Ok(Some(8)))) {
        SubmitAction::InsertAuto(row) => assert!(!row.moved),
        _ => panic!("expected the auto insert"),
    }
    match flow.step(SubmitEvent::Written(false)) {
        SubmitAction::Abort(a) => assert_eq!(a.message(), "Failed to insert into auto_data"),
        _ => panic!("expected an abort"),
    }
    let (mut flow, _) = submit_bad::submit_page_start(bad_form("park"));
    match flow.step(SubmitEvent::EntryId(Ok(None))) {
        SubmitAction::Reply(r) => assert_eq!(r.message(), "Failed"),
        _ => panic!("expected a reply"),
    }
    let (mut flow, _) = submit_bad::submit_page_start(bad_form("park"));
    match flow.step(SubmitEvent::EntryId(Err(()))) {
        SubmitAction::Abort(a) => assert_eq!(a.message(), "Insert failed"),
        _ => panic!("expected an abort"),
    }
    let (mut flow, _) = submit_bad::submit_page_start(bad_form("park"));
    flow.step(SubmitEvent::EntryId(Ok(Some(8))));
    flow.step(SubmitEvent::Written(true));
    match flow.step(SubmitEvent::Written(true)) {
        SubmitAction::InsertEndgame(row) => assert!(row.died),
        _ => panic!("expected the endgame insert"),
    }
    flow.step(SubmitEvent::Written(true));
    match flow.step(SubmitEvent::MatchOfTeam(None)) {
        SubmitAction::Abort(a) => assert_eq!(a.message(), "Failed to get match id"),
        _ => panic!("expected an abort"),
    }
}
