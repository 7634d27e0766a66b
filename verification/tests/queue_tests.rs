use scouting::access::Lookup;
use scouting::queue::{
    check_if_admin_flag, check_if_admin_id, matches_url, queue_form_after_admin, queue_form_after_fetch,
    queue_form_after_store, queue_form_start, schedule_from, AdminRefusal, Alliance, Alliances, Match,
    QueueReply, TbaMatch,
};
use scouting::remove_queue::{
    queue_remove_after_admin, queue_remove_after_delete, queue_remove_after_restart, queue_remove_start,
    RemoveReply,
};

fn keys(list: &[&str]) -> Vec<String> {
    list.iter().map(|k| k.to_string()).collect()
}

fn listed(level: &str, number: i32, red: &[&str], blue: &[&str]) -> TbaMatch {
    TbaMatch {
        comp_level: level.to_string(),
        match_number: number,
        alliances: Alliances {
            red: Alliance { team_keys: keys(red) },
            blue: Alliance { team_keys: keys(blue) },
        },
    }
}

#[test]
fn qualification_match_converts() {
    let m = Match::from(&listed("qm", 12, &["frc254", "frc1678", "frc118"], &["frc971", "frc2056", "frc4414"]));
    assert_eq!(m.description, "Qualification 12");
    assert_eq!(m.matchNumber, 12);
    assert_eq!(m.tournamentLevel, "Qualification");
    let teams: Vec<(u32, String)> = m.teams.iter().map(|t| (t.teamNumber, t.station.clone())).collect();
    assert_eq!(
        teams,
        vec![
            (254, "Red1".to_string()),
            (1678, "Red2".to_string()),
            (118, "Red3".to_string()),
            (971, "Blue1".to_string()),
            (2056, "Blue2".to_string()),
            (4414, "Blue3".to_string()),
        ]
    );
}

#[test]
fn other_levels_are_playoffs_and_bad_keys_are_skipped() {
    let m = Match::from(&listed("sf", 3, &["frcX", "frc5"], &["254", "frc+7", "frc4294967296"]));
    assert_eq!(m.description, "Playoff 3");
    assert_eq!(m.tournamentLevel, "Playoff");
    let teams: Vec<(u32, String)> = m.teams.iter().map(|t| (t.teamNumber, t.station.clone())).collect();
    assert_eq!(teams, vec![(5, "Red2".to_string()), (7, "Blue2".to_string())]);
    let f = Match::from(&listed("f", -1, &[], &[]));
    assert_eq!(f.description, "Playoff -1");
    assert!(f.teams.is_empty());
}

#[test]
fn schedule_keeps_listing_order() {
    let s = schedule_from(&vec![listed("qm", 2, &["frc1"], &[]), listed("qm", 1, &[], &["frc2"])]);
    assert_eq!(s.Schedule.len(), 2);
    assert_eq!(s.Schedule[0].matchNumber, 2);
    assert_eq!(s.Schedule[1].teams[0].station, "Blue1");
}

#[test]
fn listing_url() {
    assert_eq!(
        matches_url("2025tacy"),
        "https://www.thebluealliance.com/api/v3/event/2025tacy/matches/simple"
    );
}

#[test]
fn admin_check_steps() {
    assert_eq!(check_if_admin_id("bad"), Err(AdminRefusal::NotLoggedIn));
    assert_eq!(AdminRefusal::NotLoggedIn.message(), "Your not logined!");
    assert_eq!(check_if_admin_flag(Lookup::Found(true)), None);
    assert_eq!(check_if_admin_flag(Lookup::Found(false)), Some(AdminRefusal::NoPerms));
    assert_eq!(AdminRefusal::NoPerms.message(), "You don't have perms");
    assert_eq!(check_if_admin_flag(Lookup::Missing), Some(AdminRefusal::UserGone));
    assert_eq!(check_if_admin_flag(Lookup::Failed), Some(AdminRefusal::UserGone));
    assert_eq!(AdminRefusal::UserGone.message(), "This user no longer exists!");
}

#[test]
fn queue_form_steps() {
    assert_eq!(queue_form_start(None), Err(QueueReply::NotLoggedIn));
    assert_eq!(QueueReply::NotLoggedIn.message(), Some("You are not logined in"));
    assert_eq!(
        queue_form_start(Some("junk")),
        Err(QueueReply::Refused(AdminRefusal::NotLoggedIn))
    );
    assert_eq!(queue_form_start(Some("00000000-0000-0000-0000-00000000000a")), Ok(10));
    assert_eq!(queue_form_after_admin(Lookup::Found(true)), None);
    assert_eq!(
        queue_form_after_admin(Lookup::Found(false)),
        Some(QueueReply::Refused(AdminRefusal::NoPerms))
    );
    assert!(matches!(queue_form_after_fetch(None), Err(QueueReply::FetchFailed)));
    assert_eq!(QueueReply::FetchFailed.message(), Some("Database error!"));
    let s = queue_form_after_fetch(Some(vec![listed("qm", 4, &["frc9"], &[])])).ok().unwrap();
    assert_eq!(s.Schedule[0].description, "Qualification 4");
    assert_eq!(queue_form_after_store(true), QueueReply::Queued);
    assert_eq!(QueueReply::Queued.message(), None);
    assert_eq!(queue_form_after_store(false).message(), Some("Database error!"));
}

#[test]
fn queue_remove_steps() {
    assert_eq!(queue_remove_start(None), Err(RemoveReply::NotLoggedIn));
    assert_eq!(RemoveReply::NotLoggedIn.message(), Some("You are not logined in"));
    assert_eq!(queue_remove_start(Some("x")).unwrap_err().message(), Some("Your not logined!"));
    assert_eq!(queue_remove_after_admin(Lookup::Missing).unwrap().message(), Some("This user no longer exists!"));
    assert_eq!(queue_remove_after_admin(Lookup::Found(true)), None);
    assert_eq!(queue_remove_after_delete(true), None);
    assert_eq!(queue_remove_after_delete(false), Some(RemoveReply::DbError));
    assert_eq!(RemoveReply::DbError.message(), Some("Database error"));
    assert_eq!(queue_remove_after_restart(true), RemoveReply::Cleared);
    assert_eq!(queue_remove_after_restart(false), RemoveReply::DbError);
}
