//! Service configuration and the URLs derived from it.

pub mod mysql_config;
pub mod wechatpay_config;

use vstd::prelude::*;

verus! {

/// Integration settings of the service: endpoints, credentials and the
/// database location.
pub struct IntegrationConfig {
    pub openai_url_root: String,
    pub openai_api_key: String,
    pub qwen_url_root: String,
    pub qwen_api_key: String,
    pub aliyun_oss_endpoint: String,
    pub aliyun_oss_access_key_id: String,
    pub aliyun_oss_access_key_secret: String,
    pub swagger_endpoint: String,
    pub mysql_ip: String,
    pub mysql_port: String,
    pub mysql_username: String,
    pub mysql_password: String,
    pub mysql_database: String,
    pub wechat_appid: String,
    pub wechat_mch_id: String,
    pub wechat_v3_key: String,
    pub wechat_secret: String,
    pub wechat_serial_no: String,
}

/// `mysql://{username}:{password}@{ip}:{port}/{database}`.
pub open spec fn mysql_url_text(
    username: Seq<char>,
    password: Seq<char>,
    ip: Seq<char>,
    port: Seq<char>,
    database: Seq<char>,
) -> Seq<char> {
    "mysql://"@ + username + ":"@ + password + "@"@ + ip + ":"@ + port + "/"@ + database
}

/// `http://{endpoint}{route}`.
pub open spec fn utility_url_text(endpoint: Seq<char>, route: Seq<char>) -> Seq<char> {
    "http://"@ + endpoint + route
}

impl IntegrationConfig {
    /// The connection URL of the MySQL database.
    pub fn gen_mysql_url(&self) -> (url: String)
        ensures
            url@ == mysql_url_text(
                self.mysql_username@,
                self.mysql_password@,
                self.mysql_ip@,
                self.mysql_port@,
                self.mysql_database@,
            ),
    {
        let mut url = String::from_str("mysql://");
        url.append(self.mysql_username.as_str());
        url.append(":");
        url.append(self.mysql_password.as_str());
        url.append("@");
        url.append(self.mysql_ip.as_str());
        url.append(":");
        url.append(self.mysql_port.as_str());
        url.append("/");
        url.append(self.mysql_database.as_str());
        url
    }

    /// The URL of a route of the utility (swagger) service.
    pub fn gen_utility_url_by_route(&self, route: &str) -> (url: String)
        ensures
            url@ == utility_url_text(self.swagger_endpoint@, route@),
    {
        let mut url = String::from_str("http://");
        url.append(self.swagger_endpoint.as_str());
        url.append(route);
        url
    }
}

} // verus!
