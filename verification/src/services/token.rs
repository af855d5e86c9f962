//! Exchange of a mini-program login code for a WeChat session.

use crate::config::IntegrationConfig;
use vstd::prelude::*;

verus! {

/// The login code the mini program obtained.
pub struct CodeToSessionRequest {
    pub code: Option<String>,
}

/// WeChat's answer to a code exchange.
pub struct CodeToSessionResponse {
    pub errcode: Option<i32>,
    pub errmsg: Option<String>,
    pub openid: Option<String>,
    pub session_key: Option<String>,
    pub unionid: Option<String>,
}

/// The code-exchange service; it holds no state.
pub struct TokenService {}

/// The `jscode2session` URL of WeChat's API for the app credentials and code.
pub open spec fn jscode2session_url_text(
    appid: Seq<char>,
    secret: Seq<char>,
    code: Seq<char>,
) -> Seq<char> {
    "https://api.weixin.qq.com/sns/jscode2session?appid="@ + appid + "&secret="@ + secret
        + "&js_code="@ + code + "&grant_type=authorization_code"@
}

impl TokenService {
    /// The service.
    pub fn new() -> (s: Self) {
        TokenService {  }
    }

    /// The URL that exchanges the request's code with WeChat, or an error
    /// when the request carries no code.
    pub fn jscode_to_session_url(
        &self,
        conf: &IntegrationConfig,
        req: &CodeToSessionRequest,
    ) -> (r: Result<String, String>)
        ensures
            match req.code {
                Some(code) => r matches Ok(url) && url@ == jscode2session_url_text(
                    conf.wechat_appid@,
                    conf.wechat_secret@,
                    code@,
                ),
                None => r matches Err(e) && e@ == "code required"@,
            },
    {
        match &req.code {
            None => Err(String::from_str("code required")),
            Some(code) => {
                let mut url = String::from_str(
                    "https://api.weixin.qq.com/sns/jscode2session?appid=",
                );
                url.append(conf.wechat_appid.as_str());
                url.append("&secret=");
                url.append(conf.wechat_secret.as_str());
                url.append("&js_code=");
                url.append(code.as_str());
                url.append("&grant_type=authorization_code");
                Ok(url)
            },
        }
    }
}

} // verus!
