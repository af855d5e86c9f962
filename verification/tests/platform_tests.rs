use miki_backend::services::platform::{
    delete_whitelist_user_cmd, insert_whitelist_user_cmd, query_whitelist_user_cmd,
    update_whitelist_user_cmd, WhitelistUserData,
};

fn full() -> WhitelistUserData {
    WhitelistUserData {
        openid: Some("oid".to_string()),
        name: Some("Ann".to_string()),
        added_time: Some(1700000000),
        expiration_date: Some(1800000000),
        added_by: Some("admin".to_string()),
        status: Some(-1),
    }
}

fn empty() -> WhitelistUserData {
    WhitelistUserData {
        openid: None,
        name: None,
        added_time: None,
        expiration_date: None,
        added_by: None,
        status: None,
    }
}

#[test]
fn new_with_openid_holds_only_openid() {
    let d = WhitelistUserData::new_with_openid("abc".to_string());
    assert_eq!(d.openid.as_deref(), Some("abc"));
    assert!(d.name.is_none() && d.added_time.is_none() && d.expiration_date.is_none());
    assert!(d.added_by.is_none() && d.status.is_none());
}

#[test]
fn insert_fields_and_values_of_full_row() {
    let (f, v) = full().gen_insert_fields_and_values();
    assert_eq!(f, "(openid, name, added_time, expiration_date, added_by, status)");
    assert_eq!(v, "(oid, Ann, 1700000000, 1800000000, admin, -1)");
}

#[test]
fn insert_fields_and_values_of_partial_and_empty_rows() {
    let (f, v) = empty().gen_insert_fields_and_values();
    assert_eq!(f, "()");
    assert_eq!(v, "()");
    let d = WhitelistUserData { name: Some("B".to_string()), status: Some(1), ..empty() };
    let (f, v) = d.gen_insert_fields_and_values();
    assert_eq!(f, "(name, status)");
    assert_eq!(v, "(B, 1)");
}

#[test]
fn update_set_list_leaves_out_openid() {
    assert_eq!(
        full().gen_update_cmd(),
        "name = 'Ann', added_time = '1700000000', expiration_date = '1800000000', added_by = 'admin', status = '-1'"
    );
    assert_eq!(empty().gen_update_cmd(), "");
    let d = WhitelistUserData { openid: Some("x".to_string()), status: Some(1), ..empty() };
    assert_eq!(d.gen_update_cmd(), "status = '1'");
}

#[test]
fn delete_command_needs_openid() {
    assert_eq!(
        delete_whitelist_user_cmd(&full()).unwrap(),
        "DELETE FROM whitelist_user WHERE openid='oid';"
    );
    assert_eq!(delete_whitelist_user_cmd(&empty()).unwrap_err(), "openid required");
}

#[test]
fn insert_command() {
    let d = WhitelistUserData { openid: Some("o".to_string()), added_time: Some(5), ..empty() };
    assert_eq!(
        insert_whitelist_user_cmd(&d),
        "INSERT INTO whitelist_user (openid, added_time) VALUES (o, 5)"
    );
}

#[test]
fn query_command_filters_expired_rows() {
    assert_eq!(
        query_whitelist_user_cmd(&full()),
        "SELECT * FROM whitelist_user WHERE openid='oid' AND expiration_date > UNIX_TIMESTAMP(NOW());"
    );
    assert_eq!(
        query_whitelist_user_cmd(&empty()),
        "SELECT * FROM whitelist_user WHERE expiration_date > UNIX_TIMESTAMP(NOW());"
    );
}

#[test]
fn update_command_needs_openid() {
    let d = WhitelistUserData { openid: Some("o".to_string()), name: Some("N".to_string()), ..empty() };
    assert_eq!(
        update_whitelist_user_cmd(&d).unwrap(),
        "UPDATE whitelist_user SET name = 'N' WHERE openid = 'o'"
    );
    let d = WhitelistUserData { name: Some("N".to_string()), ..empty() };
    assert_eq!(update_whitelist_user_cmd(&d).unwrap_err(), "openid required");
}
