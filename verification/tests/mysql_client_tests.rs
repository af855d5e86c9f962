use miki_backend::database::mysql::{
    delete_whitelist_user_cmd, insert_whitelist_user_cmd, query_whitelist_user_cmd,
    update_whitelist_user_cmd, WhitelistUserData,
};

fn row(openid: Option<&str>) -> WhitelistUserData {
    WhitelistUserData {
        openid: openid.map(|s| s.to_string()),
        name: Some("Ann".to_string()),
        added_time: None,
        expiration_date: Some(99),
        added_by: None,
        status: Some(2),
    }
}

#[test]
fn client_insert_quotes_values() {
    assert_eq!(
        insert_whitelist_user_cmd(&row(Some("o1"))).unwrap(),
        "INSERT INTO whitelist_user (openid,name,expiration_date,status) VALUES ('o1','Ann','99','2');"
    );
    assert_eq!(insert_whitelist_user_cmd(&row(None)).unwrap_err(), "openid required");
}

#[test]
fn client_update_and_delete() {
    assert_eq!(
        update_whitelist_user_cmd(&row(Some("o1"))).unwrap(),
        "UPDATE whitelist_user SET name = 'Ann',expiration_date = '99',status = '2' WHERE openid = 'o1'"
    );
    assert_eq!(update_whitelist_user_cmd(&row(None)).unwrap_err(), "openid required");
    assert_eq!(
        delete_whitelist_user_cmd(&row(Some("o1"))).unwrap(),
        "DELETE FROM whitelist_user WHERE openid='o1';"
    );
    assert_eq!(delete_whitelist_user_cmd(&row(None)).unwrap_err(), "openid required");
}

#[test]
fn client_query() {
    assert_eq!(
        query_whitelist_user_cmd(&row(Some("o1"))),
        "SELECT * FROM whitelist_user WHERE openid='o1';"
    );
    assert_eq!(query_whitelist_user_cmd(&row(None)), "SELECT * FROM whitelist_user;");
}
