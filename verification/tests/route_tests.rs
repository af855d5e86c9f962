use miki_backend::config::IntegrationConfig;
use miki_backend::routes::forward::forward_url;
use miki_backend::routes::platform::{query_body, rows_affected_body};
use miki_backend::routes::token::{miniprogram_token_body, object_body, oss_token_body};
use miki_backend::routes::{insert_whitelist_user_body, query_whitelist_user_error_body, res_count};
use miki_backend::services::token::{CodeToSessionRequest, TokenService};

fn conf() -> IntegrationConfig {
    IntegrationConfig {
        openai_url_root: String::new(),
        openai_api_key: String::new(),
        qwen_url_root: String::new(),
        qwen_api_key: String::new(),
        aliyun_oss_endpoint: "oss-cn.example.com".to_string(),
        aliyun_oss_access_key_id: "AK\"1".to_string(),
        aliyun_oss_access_key_secret: "SK".to_string(),
        swagger_endpoint: String::new(),
        mysql_ip: String::new(),
        mysql_port: String::new(),
        mysql_username: String::new(),
        mysql_password: String::new(),
        mysql_database: String::new(),
        wechat_appid: "wx123".to_string(),
        wechat_mch_id: String::new(),
        wechat_v3_key: String::new(),
        wechat_secret: "s3cr3t".to_string(),
        wechat_serial_no: String::new(),
    }
}

#[test]
fn row_count_bodies() {
    assert_eq!(res_count(3), "{\"res\":3}");
    assert_eq!(rows_affected_body(Some(0)), "{\"res\":0}");
    assert_eq!(rows_affected_body(Some(12)), "{\"res\":12}");
    assert_eq!(rows_affected_body(None), "{{\"res\":0}}");
    assert_eq!(insert_whitelist_user_body(Some(1)), "{\"res\":1}");
    assert_eq!(insert_whitelist_user_body(None), "error");
    assert_eq!(query_whitelist_user_error_body("boom"), "some error:boom");
}

#[test]
fn serialized_or_fallback_bodies() {
    assert_eq!(query_body(Some("[{}]".to_string())), "[{}]");
    assert_eq!(query_body(None), "[]");
    assert_eq!(object_body(Some("{\"a\":1}".to_string())), "{\"a\":1}");
    assert_eq!(object_body(None), "{}");
}

#[test]
fn oss_token_json() {
    assert_eq!(
        oss_token_body(&conf()),
        "{\"ossAccessKeyId\":\"AK\\\"1\",\"ossAccessKeySecret\":\"SK\",\"ossEndpoint\":\"oss-cn.example.com\"}"
    );
}

#[test]
fn miniprogram_token_json() {
    assert_eq!(miniprogram_token_body(&conf()), "{\"appid\":\"wx123\",\"secret\":\"s3cr3t\"}");
}

#[test]
fn forward_url_keeps_query() {
    assert_eq!(forward_url("/utility-project/a/b", Some("x=1&y=2")), "http://endpoint/utility-project/a/b?x=1&y=2");
    assert_eq!(forward_url("/utility-project/a/b", None), "http://endpoint/utility-project/a/b");
}

#[test]
fn jscode2session_url() {
    let s = TokenService::new();
    let url = s.jscode_to_session_url(&conf(), &CodeToSessionRequest { code: Some("c0de".to_string()) });
    assert_eq!(
        url.unwrap(),
        "https://api.weixin.qq.com/sns/jscode2session?appid=wx123&secret=s3cr3t&js_code=c0de&grant_type=authorization_code"
    );
    let err = s.jscode_to_session_url(&conf(), &CodeToSessionRequest { code: None });
    assert_eq!(err.unwrap_err(), "code required");
}
