use scouting::access::{check_write, decide_access, parse_user_id, Access, Lookup, WriteRefusal};
use scouting::{check_if_read_flag, check_if_read_id, ReadRefusal};

#[test]
fn user_id_reads_uuid_text() {
    assert_eq!(
        parse_user_id("550e8400-e29b-41d4-a716-446655440000"),
        Some(0x550e8400_e29b_41d4_a716_446655440000)
    );
    assert_eq!(
        parse_user_id("550e8400e29b41d4a716446655440000"),
        Some(0x550e8400_e29b_41d4_a716_446655440000)
    );
    assert_eq!(parse_user_id("Not logined in"), None);
    assert_eq!(parse_user_id(""), None);
}

#[test]
fn access_follows_flag() {
    assert_eq!(decide_access(Lookup::Found(true)), Access::Granted);
    assert_eq!(decide_access(Lookup::Found(false)), Access::Forbidden);
    assert_eq!(decide_access(Lookup::Missing), Access::NoUser);
    assert_eq!(decide_access(Lookup::Failed), Access::DbError);
}

#[test]
fn write_check_gives_name_or_refusal() {
    assert_eq!(check_write(Lookup::Found((true, "ana".to_string()))), Ok("ana".to_string()));
    let refused = check_write(Lookup::Found((false, "ana".to_string()))).unwrap_err();
    assert_eq!(refused, WriteRefusal::NoWritePerms);
    assert_eq!(refused.message(), "You don't have writing perms!");
    assert_eq!(check_write(Lookup::Missing).unwrap_err().message(), "Can't find user");
    assert_eq!(check_write(Lookup::Failed).unwrap_err().message(), "Database Error");
    assert_eq!(WriteRefusal::NotLoggedIn.message(), "Not logined in");
}

#[test]
fn read_check_messages() {
    assert_eq!(check_if_read_id("nope"), Err(ReadRefusal::NotLoggedIn));
    assert_eq!(ReadRefusal::NotLoggedIn.message(), Some("Not logined"));
    assert_eq!(check_if_read_id("00000000-0000-0000-0000-000000000001"), Ok(1));
    assert_eq!(check_if_read_flag(Lookup::Found(true)), None);
    assert_eq!(check_if_read_flag(Lookup::Found(false)), Some(ReadRefusal::NoReadPerms));
    assert_eq!(ReadRefusal::NoReadPerms.message(), None);
    assert_eq!(check_if_read_flag(Lookup::Missing).unwrap().message(), Some("No user found"));
    assert_eq!(check_if_read_flag(Lookup::Failed).unwrap().message(), Some("Unkown error"));
}
