use scouting::access::{Lookup, WriteRefusal};
use scouting::scout::{group_match_rows, scout_after_rows, scout_after_user, scout_start, FlatMatchRow};

fn row(match_id: i64, number: i32, team: i32, team_id: i32, station: &str) -> FlatMatchRow {
    FlatMatchRow {
        match_id,
        description: format!("Qualification {}", number),
        match_number: number,
        event_code: "2025tacy".to_string(),
        tournament_level: "Qualification".to_string(),
        team_number: team,
        team_id,
        station: station.to_string(),
    }
}

#[test]
fn rows_group_by_match_in_id_order() {
    let rows = vec![
        row(30, 1, 254, 1, "Blue1"),
        row(10, 2, 971, 2, "Blue1"),
        row(30, 1, 118, 3, "Red1"),
        row(20, 3, 1678, 4, "Red2"),
        row(10, 2, 4414, 5, "Red3"),
    ];
    let out = group_match_rows(rows);
    let ids: Vec<i64> = out.iter().map(|m| m.id).collect();
    assert_eq!(ids, vec![10, 20, 30]);
    assert_eq!(out[0].description, "Qualification 2");
    assert_eq!(out[0].matchNumber, 2);
    let teams: Vec<(i32, u32, String)> = out[0].teams.iter().map(|t| (t.id, t.teamNumber, t.station.clone())).collect();
    assert_eq!(teams, vec![(2, 971, "Blue1".to_string()), (5, 4414, "Red3".to_string())]);
    assert_eq!(out[2].teams.len(), 2);
    assert_eq!(out[2].teams[0].teamNumber, 254);
    assert_eq!(out[2].teams[1].teamNumber, 118);
    let total: usize = out.iter().map(|m| m.teams.len()).sum();
    assert_eq!(total, 5);
}

#[test]
fn first_row_heads_its_match() {
    let mut second = row(7, 5, 1, 1, "Red1");
    second.description = "other".to_string();
    let out = group_match_rows(vec![row(7, 5, 2, 2, "Red2"), second]);
    assert_eq!(out.len(), 1);
    assert_eq!(out[0].description, "Qualification 5");
    assert_eq!(out[0].event_code, "2025tacy");
    assert_eq!(out[0].tournamentLevel, "Qualification");
}

#[test]
fn team_numbers_are_cast_as_unsigned() {
    let out = group_match_rows(vec![row(1, 1, -1, 1, "Red1")]);
    assert_eq!(out[0].teams[0].teamNumber, u32::MAX);
}

#[test]
fn empty_queue_groups_to_nothing() {
    assert!(group_match_rows(Vec::new()).is_empty());
}

#[test]
fn scout_page_steps() {
    assert_eq!(scout_start(None), Err(WriteRefusal::NotLoggedIn));
    assert_eq!(scout_start(Some("x")), Err(WriteRefusal::NotLoggedIn));
    assert_eq!(scout_start(Some("00000000-0000-0000-0000-000000000003")), Ok(3));
    assert_eq!(scout_after_user(Lookup::Found((true, "a".to_string()))), None);
    assert_eq!(scout_after_user(Lookup::Found((false, "a".to_string()))), Some(WriteRefusal::NoWritePerms));
    assert_eq!(scout_after_user(Lookup::Missing), Some(WriteRefusal::NoUser));
    assert_eq!(scout_after_user(Lookup::Failed), Some(WriteRefusal::DbError));
    assert_eq!(scout_after_rows(None).err().unwrap().message(), "Database Error");
    assert_eq!(scout_after_rows(Some(vec![row(4, 1, 5, 6, "Red1")])).ok().unwrap().len(), 1);
}
