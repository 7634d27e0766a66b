use scouting::access::Lookup;
use scouting::get_player_match::pit_comment;
use scouting::login::login_view;
use scouting::pit::{parse_out_bool, pit_auto_after_lookup, pit_record, pit_submit_reply, pitAutoSubmit, PitReply, Pit_Submit_data};
use scouting::search::{search_filters, SearchFilter, SearchForm};
use scouting::user::{new_user_flags, new_user_reply, InsertFailure, NewUserFlags, NewUserReply, UserRequestCreate};
use scouting::viewpit::{view_pit_auto, view_pit_row, PitAutoData, PitAutoData2, ViewPitError};
use scouting::{game_piece_count, game_piece_countable, game_piece_counts, ScoutingEntry};

#[test]
fn yes_is_the_only_true_answer() {
    assert!(parse_out_bool("yes"));
    assert!(!parse_out_bool("no"));
    assert!(!parse_out_bool("Yes"));
    assert!(!parse_out_bool(""));
}

fn pit_form(comment: Option<&str>) -> Pit_Submit_data {
    Pit_Submit_data {
        team: 254,
        event_code: "2025tacy".to_string(),
        algae_processor: "yes".to_string(),
        algae_barge: "no".to_string(),
        algae_remove: "maybe".to_string(),
        auto_align: "yes".to_string(),
        l1: "yes".to_string(),
        l2: "no".to_string(),
        l3: "yes".to_string(),
        l4: "no".to_string(),
        ground_intake: "yes".to_string(),
        climber: "no".to_string(),
        height: "1.2m".to_string(),
        widthxlength: "30x30".to_string(),
        weight: "50kg".to_string(),
        defence: "yes".to_string(),
        driver_years_experience: "2".to_string(),
        comment: comment.map(|c| c.to_string()),
    }
}

#[test]
fn pit_form_becomes_row() {
    let r = pit_record(pit_form(Some("strong")));
    assert!(r.algae_processor && !r.algae_barge && !r.algae_remove && r.auto_align);
    assert!(r.l1 && !r.l2 && r.l3 && !r.l4 && r.ground_intake && !r.climber && r.defence);
    assert_eq!(r.team, 254);
    assert_eq!(r.height, "1.2m");
    assert_eq!(r.comment, "strong");
    assert_eq!(pit_record(pit_form(None)).comment, "");
    assert_eq!(pit_submit_reply(true), PitReply::Saved);
    assert_eq!(pit_submit_reply(false).message(), Some("Database error"));
}

#[test]
fn pit_auto_form_becomes_row() {
    let form = || pitAutoSubmit {
        team: 1,
        event_code: "e".to_string(),
        left_auto: "yes".to_string(),
        center_auto: "no".to_string(),
        right_auto: "yes".to_string(),
        amount_of_sides: None,
        amount_of_combo_sides: Some("2".to_string()),
        coral_amount: "3".to_string(),
        algae_amount: "1".to_string(),
    };
    assert_eq!(pit_auto_after_lookup(form(), None).err(), Some(PitReply::DbError));
    let row = pit_auto_after_lookup(form(), Some(44)).ok().unwrap();
    assert_eq!(row.pit_id, 44);
    assert!(row.left_auto && !row.center_auto && row.right_auto);
    assert_eq!(row.amount_of_sides, "");
    assert_eq!(row.amount_of_combo_sides, "2");
    assert_eq!(row.coral_amount, "3");
}

#[test]
fn search_form_drops_blank_texts() {
    let f = SearchForm { scouter: Some("  ".to_string()), team: Some(254), event: Some(" 2025tacy ".to_string()) };
    let n = f.normalized();
    assert_eq!(n.scouter, None);
    assert_eq!(n.team, Some(254));
    assert_eq!(n.event, Some(" 2025tacy ".to_string()));
    let again = n.normalized();
    assert_eq!(again.scouter, n.scouter);
    assert_eq!(again.event, n.event);
    let empty = SearchForm { scouter: None, team: None, event: Some("".to_string()) }.normalized();
    assert_eq!(empty.event, None);
}

#[test]
fn search_filters_in_order() {
    let f = SearchForm { scouter: Some("ana".to_string()), team: None, event: Some("e1".to_string()) };
    let filters = search_filters(&f);
    assert_eq!(filters.len(), 2);
    assert!(matches!(&filters[0], SearchFilter::Scouter(s) if s == "ana"));
    assert!(matches!(&filters[1], SearchFilter::Event(e) if e == "e1"));
    assert_eq!(filters[0].clause(), " AND \"user\" = ");
    assert_eq!(filters[1].clause(), " AND event_code = ");
    let t = search_filters(&SearchForm { scouter: Some("\t".to_string()), team: Some(3), event: None });
    assert_eq!(t.len(), 1);
    assert!(matches!(t[0], SearchFilter::Team(3)));
    assert_eq!(t[0].clause(), " AND team = ");
}

fn creation(pass: &str, read: &str, write: &str, admin: &str) -> UserRequestCreate {
    UserRequestCreate {
        passcreate: pass.to_string(),
        username: "ana".to_string(),
        can_write: write.to_string(),
        can_read: read.to_string(),
        is_admin: admin.to_string(),
    }
}

#[test]
fn account_requests_are_checked_in_order() {
    assert_eq!(
        new_user_flags(&creation("VerySexyPass", "true", "false", "true")),
        Ok(NewUserFlags { can_read: true, can_write: false, is_admin: true })
    );
    let wrong = new_user_flags(&creation("letmein", "x", "x", "x")).unwrap_err();
    assert_eq!(wrong, NewUserReply::WrongPassword);
    assert_eq!(wrong.message(), "Invalid admin password, please contact Philip for password.");
    let r = new_user_flags(&creation("VerySexyPass", "yes", "x", "x")).unwrap_err();
    assert_eq!(r.message(), "Invalid form: can_read must be 'true' or 'false'.");
    let w = new_user_flags(&creation("VerySexyPass", "true", "TRUE", "x")).unwrap_err();
    assert_eq!(w.message(), "Invalid form: can_write must be 'true' or 'false'.");
    let a = new_user_flags(&creation("VerySexyPass", "false", "true", "")).unwrap_err();
    assert_eq!(a.message(), "Invalid form: is admin must be 'true' or 'false'.");
}

#[test]
fn account_store_outcomes() {
    assert_eq!(new_user_reply(Ok(())).message(), "User created successfully.");
    let taken = new_user_reply(Err(InsertFailure::Database(
        "error returned from database: UNIQUE constraint failed: user_list.username".to_string(),
    )));
    assert_eq!(taken, NewUserReply::NameTaken);
    assert_eq!(taken.message(), "Username already taken. Please choose another one.");
    let other = new_user_reply(Err(InsertFailure::Database("duplicate key value".to_string())));
    assert_eq!(other.message(), "Database error occurred. Please try again.");
    assert_eq!(new_user_reply(Err(InsertFailure::Other)).message(), "Unexpected error occurred. Please try again.");
}

#[test]
fn login_page_states() {
    let v = login_view("ana", Lookup::Found((9, true, false, true)));
    assert_eq!(v.state, "Logined in!");
    assert_eq!(v.uuid, Some(9));
    assert_eq!(v.username, "ana");
    assert_eq!((v.can_read.as_str(), v.can_write.as_str(), v.is_admin.as_str()), ("true", "false", "true"));
    let m = login_view("ana", Lookup::Missing);
    assert_eq!(m.state, "No user found");
    assert_eq!(m.uuid, None);
    assert_eq!(m.username, "");
    assert_eq!(m.can_read, "");
    let f = login_view("ana", Lookup::Failed);
    assert_eq!(f.state, "Database Error");
    assert_eq!(f.is_admin, "");
}

#[test]
fn pit_comment_defaults() {
    assert_eq!(pit_comment(Lookup::Found("good".to_string())), Ok("good".to_string()));
    assert_eq!(pit_comment(Lookup::Missing), Ok("No pit data".to_string()));
    assert_eq!(pit_comment(Lookup::Failed), Err("Database Error"));
}

fn auto_row(pit_id: Option<i32>) -> PitAutoData {
    PitAutoData {
        id: 3,
        pit_id,
        left_auto: 1,
        center_auto: 0,
        right_auto: 1,
        amount_of_sides: "2".to_string(),
        amount_of_combo_sides: "1".to_string(),
        coral_amount: "4".to_string(),
        algae_amount: "0".to_string(),
    }
}

#[test]
fn pit_page_choices() {
    assert_eq!(view_pit_row(Lookup::Found(5)), Ok(5));
    assert_eq!(view_pit_row::<i32>(Lookup::Missing).unwrap_err().message(), "No pit data");
    assert_eq!(view_pit_row::<i32>(Lookup::Failed), Err(ViewPitError::DbError));
    assert_eq!(ViewPitError::DbError.message(), "Database Error!");
    let shown = view_pit_auto(Lookup::Found(auto_row(Some(12)))).unwrap();
    assert_eq!((shown.id, shown.pit_id, shown.coral_amount.as_str()), (3, 12, "4"));
    assert!(view_pit_auto(Lookup::Missing).is_none());
    assert!(view_pit_auto(Lookup::Failed).is_none());
    let direct: PitAutoData2 = PitAutoData2::from(auto_row(Some(1)));
    assert_eq!(direct.pit_id, 1);
}

fn entry(counts: [Option<i32>; 14]) -> ScoutingEntry {
    ScoutingEntry {
        id: 1,
        team: 254,
        user: Some("ana".to_string()),
        matchid: 3,
        total_score: 10,
        created_at: "2025-03-01 10:00".to_string(),
        event_code: Some("e".to_string()),
        moved: true,
        auto_l1: counts[0],
        auto_l2: counts[1],
        auto_l3: counts[2],
        auto_l4: counts[3],
        auto_algae_processor: counts[4],
        auto_algae_barge: counts[5],
        auto_algae_remove: counts[6],
        teleop_l1: counts[7],
        teleop_l2: counts[8],
        teleop_l3: counts[9],
        teleop_l4: counts[10],
        teleop_algae_processor: counts[11],
        teleop_algae_barge: counts[12],
        teleop_algae_remove: counts[13],
        died: false,
        defense_rating: Some(2),
        climb_type: Some("deep".to_string()),
        comment: None,
    }
}

#[test]
fn game_pieces_add_up() {
    let full = entry([Some(1); 14]);
    assert!(game_piece_countable(&full));
    assert_eq!(game_piece_count(&full), 14);
    let mixed = entry([Some(1), Some(2), Some(3), Some(4), Some(5), Some(6), Some(7), Some(8), Some(9), Some(10), Some(11), Some(12), Some(13), Some(14)]);
    assert_eq!(game_piece_count(&mixed), 105);
    assert_eq!(game_piece_counts(&vec![full, mixed]), vec![14, 105]);
    let mut gap = [Some(1); 14];
    gap[13] = None;
    assert!(!game_piece_countable(&entry(gap)));
    let mut huge = [Some(0); 14];
    huge[0] = Some(i32::MAX);
    huge[5] = Some(1);
    assert!(!game_piece_countable(&entry(huge)));
    let mut balanced = [Some(0); 14];
    balanced[0] = Some(i32::MAX);
    balanced[1] = Some(-5);
    assert!(game_piece_countable(&entry(balanced)));
}
