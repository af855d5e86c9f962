use miki_backend::config::mysql_config;
use miki_backend::config::IntegrationConfig;

fn conf() -> IntegrationConfig {
    IntegrationConfig {
        openai_url_root: "https://openai.example".to_string(),
        openai_api_key: "sk".to_string(),
        qwen_url_root: "https://qwen.example".to_string(),
        qwen_api_key: "qk".to_string(),
        aliyun_oss_endpoint: "oss.example.com".to_string(),
        aliyun_oss_access_key_id: "AKID".to_string(),
        aliyun_oss_access_key_secret: "AKSECRET".to_string(),
        swagger_endpoint: "10.0.0.2:8080".to_string(),
        mysql_ip: "127.0.0.1".to_string(),
        mysql_port: "3306".to_string(),
        mysql_username: "root".to_string(),
        mysql_password: "pw".to_string(),
        mysql_database: "miki".to_string(),
        wechat_appid: "wxapp".to_string(),
        wechat_mch_id: "mch".to_string(),
        wechat_v3_key: "v3".to_string(),
        wechat_secret: "wxsecret".to_string(),
        wechat_serial_no: "serial".to_string(),
    }
}

#[test]
fn mysql_url_from_integration_config() {
    assert_eq!(conf().gen_mysql_url(), "mysql://root:pw@127.0.0.1:3306/miki");
}

#[test]
fn utility_url_by_route() {
    assert_eq!(
        conf().gen_utility_url_by_route("/utility-project/ysOrder/save"),
        "http://10.0.0.2:8080/utility-project/ysOrder/save"
    );
    assert_eq!(conf().gen_utility_url_by_route(""), "http://10.0.0.2:8080");
}

#[test]
fn mysql_config_url_prints_port_in_decimal() {
    let c = mysql_config::Config {
        ip: "db.local".to_string(),
        port: 3306,
        username: "u".to_string(),
        password: "p".to_string(),
        database: "d".to_string(),
    };
    assert_eq!(c.to_url(), "mysql://u:p@db.local:3306/d");
    let c0 = mysql_config::Config { port: 0, ..c };
    assert_eq!(c0.to_url(), "mysql://u:p@db.local:0/d");
}
