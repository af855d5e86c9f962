use miki_backend::config::IntegrationConfig;
use miki_backend::services::platform::WhitelistUserData;
use miki_backend::services::wechatpay::{
    is_free_user, jsapi_start, jsapi_step, jsapi_step_at, random_str_from_bytes,
    CheckAndPayRequest, CheckAndPayResponse, JsapiAction, JsapiEvent, JsapiState, JsapiUrls,
    PaySignData,
};

fn conf() -> IntegrationConfig {
    IntegrationConfig {
        openai_url_root: String::new(),
        openai_api_key: String::new(),
        qwen_url_root: String::new(),
        qwen_api_key: String::new(),
        aliyun_oss_endpoint: String::new(),
        aliyun_oss_access_key_id: String::new(),
        aliyun_oss_access_key_secret: String::new(),
        swagger_endpoint: "util:9000".to_string(),
        mysql_ip: String::new(),
        mysql_port: String::new(),
        mysql_username: String::new(),
        mysql_password: String::new(),
        mysql_database: String::new(),
        wechat_appid: String::new(),
        wechat_mch_id: String::new(),
        wechat_v3_key: String::new(),
        wechat_secret: String::new(),
        wechat_serial_no: String::new(),
    }
}

fn req(openid: Option<&str>, amount: Option<i32>, order_type: Option<i32>) -> CheckAndPayRequest {
    CheckAndPayRequest {
        openid: openid.map(|s| s.to_string()),
        amount,
        data_platform_order_type: order_type,
    }
}

fn bytes() -> [u8; 16] {
    [0x01, 0x23, 0x45, 0x67, 0x89, 0xab, 0xcd, 0xef, 0x00, 0xff, 0x10, 0x0a, 0xa0, 0x7f, 0x80, 0x09]
}

fn user(status: Option<i8>, added: Option<u64>, expires: Option<u64>) -> WhitelistUserData {
    WhitelistUserData {
        openid: Some("oid".to_string()),
        name: None,
        added_time: added,
        expiration_date: expires,
        added_by: None,
        status,
    }
}

fn sign() -> PaySignData {
    PaySignData {
        timestamp: "1700000000".to_string(),
        nonce_str: "nonce".to_string(),
        package: "prepay_id=wx1".to_string(),
        sign_type: "RSA".to_string(),
        pay_sign: "sig".to_string(),
    }
}

/// Runs the flow up to the saved order, checking each action on the way.
fn until_order_saved(urls: &JsapiUrls, r: CheckAndPayRequest) -> (JsapiState, JsapiAction) {
    let (state, action) = jsapi_start(urls, r);
    match &action {
        JsapiAction::PostCustomer(url, body) => {
            assert_eq!(url, "http://util:9000/utility-project/ysCustomer/save");
            assert_eq!(body.member_type.as_deref(), Some("0"));
            assert_eq!(body.username.as_deref(), Some("oid"));
        }
        _ => panic!("customer save expected"),
    }
    let (state, action) = jsapi_step(urls, state, JsapiEvent::Posted);
    assert!(matches!(action, JsapiAction::DrawRandomBytes));
    let (state, action) = jsapi_step(urls, state, JsapiEvent::RandomBytes(bytes()));
    match &action {
        JsapiAction::PostOrder(url, body) => {
            assert_eq!(url, "http://util:9000/utility-project/ysOrder/save");
            assert_eq!(body.order_code.as_deref(), Some("0123456789ABCDEF00FF100AA07F8009"));
            assert_eq!(body.username.as_deref(), Some("oid"));
        }
        _ => panic!("order save expected"),
    }
    jsapi_step(urls, state, JsapiEvent::Posted)
}

#[test]
fn order_number_is_upper_hex_of_the_bytes() {
    assert_eq!(random_str_from_bytes(&bytes()), "0123456789ABCDEF00FF100AA07F8009");
    assert_eq!(random_str_from_bytes(&[0u8; 16]), "00000000000000000000000000000000");
    assert_eq!(random_str_from_bytes(&[0xffu8; 16]), "FFFFFFFFFFFFFFFFFFFFFFFFFFFFFFFF");
}

#[test]
fn urls_of_the_flow() {
    let urls = JsapiUrls::new(&conf());
    assert_eq!(urls.customer_save_url, "http://util:9000/utility-project/ysCustomer/save");
    assert_eq!(urls.order_save_url, "http://util:9000/utility-project/ysOrder/save");
    assert_eq!(urls.edit_order_url, "http://util:9000/utility-project/ysOrder/editOrderStatus");
    assert_eq!(urls.notify_url, "https://mikiai.tuyaedu.com:8124/wx_payment_notify/jsapi_notify_url");
}

#[test]
fn missing_openid_is_refused_at_once() {
    let urls = JsapiUrls::new(&conf());
    let (state, action) = jsapi_start(&urls, req(None, Some(100), Some(3)));
    assert!(matches!(state, JsapiState::Finished));
    match action {
        JsapiAction::Finish(Err(e)) => assert_eq!(e, "openid required"),
        _ => panic!("error expected"),
    }
}

#[test]
fn free_whitelisted_user_settles_without_payment() {
    let urls = JsapiUrls::new(&conf());
    let (state, action) = until_order_saved(&urls, req(Some("oid"), Some(100), Some(3)));
    match &action {
        JsapiAction::QueryWhitelist(q) => assert_eq!(q.openid.as_deref(), Some("oid")),
        _ => panic!("whitelist query expected"),
    }
    let rows = vec![user(Some(1), Some(10), Some(30))];
    let (state, action) = jsapi_step_at(&urls, state, JsapiEvent::WhitelistRows(rows), 20);
    match &action {
        JsapiAction::PostOrder(url, body) => {
            assert_eq!(url, "http://util:9000/utility-project/ysOrder/editOrderStatus");
            assert_eq!(body.order_code.as_deref(), Some("0123456789ABCDEF00FF100AA07F8009"));
            assert!(body.order_type.is_none() && body.username.is_none());
        }
        _ => panic!("order edit expected"),
    }
    let (state, action) = jsapi_step(&urls, state, JsapiEvent::Posted);
    assert!(matches!(state, JsapiState::Finished));
    match action {
        JsapiAction::Finish(Ok(r)) => {
            assert!(r.timestamp.is_none() && r.nonce_str.is_none() && r.package.is_none());
            assert!(r.sign_type.is_none() && r.pay_sign.is_none());
        }
        _ => panic!("empty response expected"),
    }
}

#[test]
fn timeless_whitelist_entry_is_free_whatever_the_clock() {
    let urls = JsapiUrls::new(&conf());
    let (state, _) = until_order_saved(&urls, req(Some("oid"), Some(100), Some(3)));
    let rows = vec![user(Some(1), None, None)];
    let (state, action) = jsapi_step(&urls, state, JsapiEvent::WhitelistRows(rows));
    assert!(matches!(state, JsapiState::EditingOrder(_, _)));
    assert!(matches!(action, JsapiAction::PostOrder(_, _)));
}

#[test]
fn expired_or_disabled_user_pays() {
    let urls = JsapiUrls::new(&conf());
    for (rows, now) in [
        (vec![user(Some(1), Some(10), Some(30))], 30u64),
        (vec![user(Some(0), None, None)], 20u64),
        (Vec::new(), 20u64),
    ] {
        let (state, _) = until_order_saved(&urls, req(Some("oid"), Some(990), Some(3)));
        let (state, action) = jsapi_step_at(&urls, state, JsapiEvent::WhitelistRows(rows), now);
        match &action {
            JsapiAction::RequestPayment(p) => {
                assert_eq!(p.description, "MikiAi会员购买");
                assert_eq!(p.out_trade_no, "0123456789ABCDEF00FF100AA07F8009");
                assert_eq!(p.amount, 990);
                assert_eq!(p.openid, "oid");
            }
            _ => panic!("payment expected"),
        }
        assert!(matches!(state, JsapiState::Paying(_, _)));
    }
}

#[test]
fn other_order_types_skip_the_whitelist_and_sign() {
    let urls = JsapiUrls::new(&conf());
    let (state, action) = until_order_saved(&urls, req(Some("oid"), Some(5), None));
    assert!(matches!(action, JsapiAction::RequestPayment(_)));
    let (state, action) = jsapi_step(&urls, state, JsapiEvent::PaySigned(Some(sign())));
    assert!(matches!(state, JsapiState::Finished));
    match action {
        JsapiAction::Finish(Ok(r)) => {
            assert_eq!(r.timestamp.as_deref(), Some("1700000000"));
            assert_eq!(r.nonce_str.as_deref(), Some("nonce"));
            assert_eq!(r.package.as_deref(), Some("prepay_id=wx1"));
            assert_eq!(r.sign_type.as_deref(), Some("RSA"));
            assert_eq!(r.pay_sign.as_deref(), Some("sig"));
        }
        _ => panic!("signed response expected"),
    }
}

#[test]
fn missing_amount_and_missing_signature_are_errors() {
    let urls = JsapiUrls::new(&conf());
    let (_, action) = until_order_saved(&urls, req(Some("oid"), None, Some(1)));
    match action {
        JsapiAction::Finish(Err(e)) => assert_eq!(e, "[jsapi] openid:oid need to pay, but no amount"),
        _ => panic!("error expected"),
    }
    let (state, _) = until_order_saved(&urls, req(Some("oid"), Some(1), Some(1)));
    let (_, action) = jsapi_step(&urls, state, JsapiEvent::PaySigned(None));
    match action {
        JsapiAction::Finish(Err(e)) => assert_eq!(e, "[jsapi] openid:oid get sign_data failed"),
        _ => panic!("error expected"),
    }
}

#[test]
fn outside_failure_and_unexpected_events_end_the_flow() {
    let urls = JsapiUrls::new(&conf());
    let (state, _) = jsapi_start(&urls, req(Some("oid"), Some(1), None));
    let (state, action) = jsapi_step(&urls, state, JsapiEvent::Failed("timeout".to_string()));
    assert!(matches!(state, JsapiState::Finished));
    match action {
        JsapiAction::Finish(Err(e)) => assert_eq!(e, "timeout"),
        _ => panic!("error expected"),
    }
    let (_, action) = jsapi_step(&urls, state, JsapiEvent::Posted);
    match action {
        JsapiAction::Finish(Err(e)) => assert_eq!(e, "unexpected event"),
        _ => panic!("error expected"),
    }
    let (state, _) = jsapi_start(&urls, req(Some("oid"), Some(1), None));
    let (_, action) = jsapi_step(&urls, state, JsapiEvent::PaySigned(None));
    match action {
        JsapiAction::Finish(Err(e)) => assert_eq!(e, "unexpected event"),
        _ => panic!("error expected"),
    }
}

#[test]
fn free_user_rule() {
    assert!(is_free_user(&user(None, None, None), 5));
    assert!(is_free_user(&user(Some(1), Some(1), Some(9)), 5));
    assert!(!is_free_user(&user(Some(2), Some(1), Some(9)), 5));
    assert!(!is_free_user(&user(Some(1), Some(5), Some(9)), 5));
    assert!(!is_free_user(&user(None, Some(1), Some(5)), 5));
    assert!(is_free_user(&user(Some(1), Some(100), None), 5));
}

#[test]
fn empty_response_has_no_fields() {
    let r = CheckAndPayResponse::new();
    assert!(r.timestamp.is_none() && r.pay_sign.is_none() && r.package.is_none());
}
