//! The JSAPI payment flow: save the customer and the order with the utility
//! service, let whitelisted users through for free, otherwise ask WeChat pay
//! for a prepay session and hand its signature data to the client.

use crate::config::{utility_url_text, IntegrationConfig};
use crate::services::platform::WhitelistUserData;
use crate::services::swagger::{YsCustomerSaveRequest, YsOrderSaveRequest};
use crate::text::{hex_char, hex_upper, lemma_be_word_nibbles, push_hex8};
use vstd::prelude::*;

verus! {

/// Hexadecimal text of four consecutive bytes extends that of the bytes before them.
proof fn lemma_hex_upper_take4(s: Seq<u8>, i: int)
    requires
        0 <= i,
        i + 4 <= s.len(),
    ensures
        hex_upper(s.take(i + 4)) == hex_upper(s.take(i)) + seq![
            hex_char((s[i] / 16) as nat),
            hex_char((s[i] % 16) as nat),
            hex_char((s[i + 1] / 16) as nat),
            hex_char((s[i + 1] % 16) as nat),
            hex_char((s[i + 2] / 16) as nat),
            hex_char((s[i + 2] % 16) as nat),
            hex_char((s[i + 3] / 16) as nat),
            hex_char((s[i + 3] % 16) as nat),
        ],
{
    assert forall|j: int| 0 <= j < 4 implies hex_upper(#[trigger] s.take(i + j + 1)) == hex_upper(
        s.take(i + j),
    ) + seq![hex_char((s[i + j] / 16) as nat), hex_char((s[i + j] % 16) as nat)] by {
        assert(s.take(i + j + 1).drop_last() =~= s.take(i + j));
        assert(s.take(i + j + 1).last() == s[i + j]);
    }
    assert(hex_upper(s.take(i + 1)) == hex_upper(s.take(i + 0 + 1)));
    assert(hex_upper(s.take(i + 2)) == hex_upper(s.take(i + 1 + 1)));
    assert(hex_upper(s.take(i + 3)) == hex_upper(s.take(i + 2 + 1)));
    assert(hex_upper(s.take(i + 4)) == hex_upper(s.take(i + 3 + 1)));
    assert(hex_upper(s.take(i + 4)) =~= hex_upper(s.take(i)) + seq![
        hex_char((s[i] / 16) as nat),
        hex_char((s[i] % 16) as nat),
        hex_char((s[i + 1] / 16) as nat),
        hex_char((s[i + 1] % 16) as nat),
        hex_char((s[i + 2] / 16) as nat),
        hex_char((s[i + 2] % 16) as nat),
        hex_char((s[i + 3] / 16) as nat),
        hex_char((s[i + 3] % 16) as nat),
    ]);
}

/// The order number made of sixteen random bytes: each group of four read
/// as a big-endian word and printed as eight upper-case hex digits, which is
/// the bytes in upper-case hex, 32 characters.
pub fn random_str_from_bytes(buf: &[u8; 16]) -> (s: String)
    ensures
        s@ == hex_upper(buf@),
{
    let mut result = String::new();
    let mut k: usize = 0;
    assert(buf@.take(0) =~= Seq::<u8>::empty());
    while k < 4
        invariant
            k <= 4,
            buf@.len() == 16,
            result@ == hex_upper(buf@.take(4 * k as int)),
        decreases 4 - k,
    {
        let i: usize = 4 * k;
        let b0: u8 = buf[i];
        let b1: u8 = buf[i + 1];
        let b2: u8 = buf[i + 2];
        let b3: u8 = buf[i + 3];
        let value: u32 = ((b0 as u32) << 24u32) | ((b1 as u32) << 16u32) | ((b2 as u32) << 8u32)
            | (b3 as u32);
        proof {
            lemma_be_word_nibbles(b0, b1, b2, b3);
            lemma_hex_upper_take4(buf@, i as int);
        }
        push_hex8(&mut result, value);
        assert(result@ =~= hex_upper(buf@.take(i + 4)));
        k = k + 1;
    }
    assert(buf@.take(16) =~= buf@);
    result
}

/// What the client asks for: who pays, how much, and the data platform's
/// order type (3 marks an order that whitelisted users get for free).
pub struct CheckAndPayRequest {
    pub openid: Option<String>,
    pub amount: Option<i32>,
    pub data_platform_order_type: Option<i32>,
}

/// The parameters the client needs to start the WeChat payment; all absent
/// when nothing is to be paid.
pub struct CheckAndPayResponse {
    pub timestamp: Option<String>,
    pub nonce_str: Option<String>,
    pub package: Option<String>,
    pub sign_type: Option<String>,
    pub pay_sign: Option<String>,
}

impl CheckAndPayResponse {
    /// The response with every field absent.
    pub fn new() -> (r: Self)
        ensures
            r == empty_pay_response(),
    {
        CheckAndPayResponse {
            timestamp: None,
            nonce_str: None,
            package: None,
            sign_type: None,
            pay_sign: None,
        }
    }
}

/// The response with every field absent.
pub open spec fn empty_pay_response() -> CheckAndPayResponse {
    CheckAndPayResponse {
        timestamp: None,
        nonce_str: None,
        package: None,
        sign_type: None,
        pay_sign: None,
    }
}

/// The signature data WeChat pay returns with a prepay session.
pub struct PaySignData {
    pub timestamp: String,
    pub nonce_str: String,
    pub package: String,
    pub sign_type: String,
    pub pay_sign: String,
}

/// The endpoints the flow talks to.
pub struct JsapiUrls {
    pub customer_save_url: String,
    pub order_save_url: String,
    pub edit_order_url: String,
    pub notify_url: String,
}

impl JsapiUrls {
    /// The utility routes for saving customers and orders and for editing an
    /// order's status, and the payment notification URL.
    pub fn new(conf: &IntegrationConfig) -> (urls: Self)
        ensures
            urls.customer_save_url@ == utility_url_text(
                conf.swagger_endpoint@,
                "/utility-project/ysCustomer/save"@,
            ),
            urls.order_save_url@ == utility_url_text(
                conf.swagger_endpoint@,
                "/utility-project/ysOrder/save"@,
            ),
            urls.edit_order_url@ == utility_url_text(
                conf.swagger_endpoint@,
                "/utility-project/ysOrder/editOrderStatus"@,
            ),
            urls.notify_url@ == "https://mikiai.tuyaedu.com:8124/wx_payment_notify/jsapi_notify_url"@,
    {
        JsapiUrls {
            customer_save_url: conf.gen_utility_url_by_route("/utility-project/ysCustomer/save"),
            order_save_url: conf.gen_utility_url_by_route("/utility-project/ysOrder/save"),
            edit_order_url: conf.gen_utility_url_by_route(
                "/utility-project/ysOrder/editOrderStatus",
            ),
            notify_url: String::from_str(
                "https://mikiai.tuyaedu.com:8124/wx_payment_notify/jsapi_notify_url",
            ),
        }
    }
}

/// A request whose payer is known.
pub struct PaymentTarget {
    pub openid: String,
    pub amount: Option<i32>,
    pub data_platform_order_type: Option<i32>,
}

/// What WeChat pay is asked to charge.
pub struct PayParams {
    pub description: String,
    pub out_trade_no: String,
    pub amount: i32,
    pub openid: String,
}

/// Where the flow stands; all but the first and last carry the order number.
pub enum JsapiState {
    /// The customer is being saved.
    SavingCustomer(PaymentTarget),
    /// Random bytes for the order number are being drawn.
    DrawingOrderNo(PaymentTarget),
    /// The order is being saved.
    SavingOrder(PaymentTarget, String),
    /// The payer's whitelist entry is being looked up.
    CheckingWhitelist(PaymentTarget, String),
    /// A free order is being marked as settled.
    EditingOrder(PaymentTarget, String),
    /// WeChat pay is being asked for a prepay session.
    Paying(PaymentTarget, String),
    /// The flow has given its answer.
    Finished,
}

/// What the outside work reported.
pub enum JsapiEvent {
    /// A POST to the utility service went through (its body is not looked at).
    Posted,
    /// Sixteen random bytes.
    RandomBytes([u8; 16]),
    /// The unexpired whitelist rows of the payer.
    WhitelistRows(Vec<WhitelistUserData>),
    /// WeChat pay answered; the signature data when it gave any.
    PaySigned(Option<PaySignData>),
    /// The outside work failed with this message.
    Failed(String),
}

/// The outside work to do next, or the flow's answer.
pub enum JsapiAction {
    /// POST the customer to the URL.
    PostCustomer(String, YsCustomerSaveRequest),
    /// Draw sixteen random bytes.
    DrawRandomBytes,
    /// POST the order to the URL.
    PostOrder(String, YsOrderSaveRequest),
    /// Query the unexpired whitelist rows matching the row.
    QueryWhitelist(WhitelistUserData),
    /// Ask WeChat pay for a prepay session.
    RequestPayment(PayParams),
    /// The flow's answer.
    Finish(Result<CheckAndPayResponse, String>),
}

/// A whitelisted user pays nothing when their status, if present, is 1 and,
/// when both times are present, `now` lies strictly between them.
pub open spec fn free_user_at(user: WhitelistUserData, now: u64) -> bool {
    &&& match user.status {
        Some(status) => status == 1,
        None => true,
    }
    &&& match (user.added_time, user.expiration_date) {
        (Some(added_time), Some(expiration_date)) => added_time < now && now < expiration_date,
        _ => true,
    }
}

/// Whether the user at `now` gets the order for free.
pub fn is_free_user(user: &WhitelistUserData, now: u64) -> (free: bool)
    ensures
        free == free_user_at(*user, now),
{
    let mut free = true;
    if let Some(status) = user.status {
        free = free && status == 1;
    }
    match (user.added_time, user.expiration_date) {
        (Some(added_time), Some(expiration_date)) => {
            let is_time_valid = added_time < now && now < expiration_date;
            free = free && is_time_valid;
        },
        (_, _) => {},
    }
    free
}

/// Orders of type 3 (absent counts as 0) go through the whitelist.
pub open spec fn whitelist_checked(t: PaymentTarget) -> bool {
    match t.data_platform_order_type {
        Some(order_type) => order_type == 3,
        None => false,
    }
}

/// The flow stops with this error text.
pub open spec fn finishes_with_error(next: JsapiState, action: JsapiAction, text: Seq<char>) -> bool {
    &&& next is Finished
    &&& action matches JsapiAction::Finish(Err(e)) && e@ == text
}

/// The payment description shown to the payer.
pub open spec fn pay_description() -> Seq<char> {
    "MikiAi会员购买"@
}

/// Asks WeChat pay for the amount under the order number, or stops when the
/// request has no amount.
pub open spec fn pays_or_fails(
    t: PaymentTarget,
    no: String,
    next: JsapiState,
    action: JsapiAction,
) -> bool {
    match t.amount {
        None => finishes_with_error(
            next,
            action,
            "[jsapi] openid:"@ + t.openid@ + " need to pay, but no amount"@,
        ),
        Some(amount) => {
            &&& next == JsapiState::Paying(t, no)
            &&& action matches JsapiAction::RequestPayment(p) && p.description@ == pay_description()
                && p.out_trade_no == no && p.amount == amount && p.openid == t.openid
        },
    }
}

/// The optional text is present and equal to `t`.
pub open spec fn text_is(o: Option<String>, t: Seq<char>) -> bool {
    match o {
        Some(s) => s@ == t,
        None => false,
    }
}

/// How the flow begins for a request.
pub open spec fn jsapi_start_spec(
    urls: JsapiUrls,
    req: CheckAndPayRequest,
    next: JsapiState,
    action: JsapiAction,
) -> bool {
    match req.openid {
        None => finishes_with_error(next, action, "openid required"@),
        Some(openid) => {
            &&& next == JsapiState::SavingCustomer(
                PaymentTarget {
                    openid,
                    amount: req.amount,
                    data_platform_order_type: req.data_platform_order_type,
                },
            )
            &&& match action {
                JsapiAction::PostCustomer(url, body) => url == urls.customer_save_url
                    && body.username == Some(openid) && text_is(body.member_type, "0"@),
                _ => false,
            }
        },
    }
}

/// How the flow moves on one event, the clock reading `now`.
pub open spec fn jsapi_step_spec(
    urls: JsapiUrls,
    state: JsapiState,
    event: JsapiEvent,
    now: u64,
    next: JsapiState,
    action: JsapiAction,
) -> bool {
    match (state, event) {
        (JsapiState::Finished, _) => finishes_with_error(next, action, "unexpected event"@),
        (_, JsapiEvent::Failed(msg)) => next is Finished && action == JsapiAction::Finish(
            Err(msg),
        ),
        (JsapiState::SavingCustomer(t), JsapiEvent::Posted) => next == JsapiState::DrawingOrderNo(
            t,
        ) && action is DrawRandomBytes,
        (JsapiState::DrawingOrderNo(t), JsapiEvent::RandomBytes(bytes)) => {
            &&& next matches JsapiState::SavingOrder(t2, no) && t2 == t && no@ == hex_upper(bytes@)
                && action == JsapiAction::PostOrder(
                urls.order_save_url,
                YsOrderSaveRequest {
                    order_code: Some(no),
                    order_type: t.data_platform_order_type,
                    username: Some(t.openid),
                },
            )
        },
        (JsapiState::SavingOrder(t, no), JsapiEvent::Posted) => if whitelist_checked(t) {
            &&& next == JsapiState::CheckingWhitelist(t, no)
            &&& action == JsapiAction::QueryWhitelist(
                WhitelistUserData {
                    openid: Some(t.openid),
                    name: None,
                    added_time: None,
                    expiration_date: None,
                    added_by: None,
                    status: None,
                },
            )
        } else {
            pays_or_fails(t, no, next, action)
        },
        (JsapiState::CheckingWhitelist(t, no), JsapiEvent::WhitelistRows(rows)) => if rows@.len()
            > 0 && free_user_at(rows@[0], now) {
            &&& next == JsapiState::EditingOrder(t, no)
            &&& action == JsapiAction::PostOrder(
                urls.edit_order_url,
                YsOrderSaveRequest { order_code: Some(no), order_type: None, username: None },
            )
        } else {
            pays_or_fails(t, no, next, action)
        },
        (JsapiState::EditingOrder(_, _), JsapiEvent::Posted) => next is Finished && action
            == JsapiAction::Finish(Ok(empty_pay_response())),
        (JsapiState::Paying(t, _), JsapiEvent::PaySigned(sign)) => match sign {
            None => finishes_with_error(
                next,
                action,
                "[jsapi] openid:"@ + t.openid@ + " get sign_data failed"@,
            ),
            Some(d) => next is Finished && action == JsapiAction::Finish(
                Ok(
                    CheckAndPayResponse {
                        timestamp: Some(d.timestamp),
                        nonce_str: Some(d.nonce_str),
                        package: Some(d.package),
                        sign_type: Some(d.sign_type),
                        pay_sign: Some(d.pay_sign),
                    },
                ),
            ),
        },
        _ => finishes_with_error(next, action, "unexpected event"@),
    }
}

/// Stops with an error text.
fn finish_with_error(text: String) -> (r: (JsapiState, JsapiAction))
    ensures
        finishes_with_error(r.0, r.1, text@),
{
    (JsapiState::Finished, JsapiAction::Finish(Err(text)))
}

/// `[jsapi] openid:{openid}{tail}`.
fn openid_message(openid: &String, tail: &str) -> (s: String)
    ensures
        s@ == "[jsapi] openid:"@ + openid@ + tail@,
{
    let mut s = String::from_str("[jsapi] openid:");
    s.append(openid.as_str());
    s.append(tail);
    s
}

/// Asks for payment, or stops when there is no amount.
fn pay_or_fail(t: PaymentTarget, no: String) -> (r: (JsapiState, JsapiAction))
    ensures
        pays_or_fails(t, no, r.0, r.1),
{
    match t.amount {
        None => finish_with_error(openid_message(&t.openid, " need to pay, but no amount")),
        Some(amount) => {
            let params = PayParams {
                description: String::from_str("MikiAi会员购买"),
                out_trade_no: no.clone(),
                amount,
                openid: t.openid.clone(),
            };
            (JsapiState::Paying(t, no), JsapiAction::RequestPayment(params))
        },
    }
}

/// Begins the flow: a request without openid is refused before any outside
/// work; otherwise the customer is saved first.
pub fn jsapi_start(urls: &JsapiUrls, req: CheckAndPayRequest) -> (r: (JsapiState, JsapiAction))
    ensures
        jsapi_start_spec(*urls, req, r.0, r.1),
{
    match req.openid {
        None => finish_with_error(String::from_str("openid required")),
        Some(openid) => {
            let body = YsCustomerSaveRequest {
                member_type: Some(String::from_str("0")),
                username: Some(openid.clone()),
            };
            let target = PaymentTarget {
                openid,
                amount: req.amount,
                data_platform_order_type: req.data_platform_order_type,
            };
            (
                JsapiState::SavingCustomer(target),
                JsapiAction::PostCustomer(urls.customer_save_url.clone(), body),
            )
        },
    }
}

/// Moves the flow on one event, with the clock reading `now`.
pub fn jsapi_step_at(urls: &JsapiUrls, state: JsapiState, event: JsapiEvent, now: u64) -> (r: (
    JsapiState,
    JsapiAction,
))
    ensures
        jsapi_step_spec(*urls, state, event, now, r.0, r.1),
{
    match state {
        JsapiState::Finished => finish_with_error(String::from_str("unexpected event")),
        JsapiState::SavingCustomer(t) => match event {
            JsapiEvent::Failed(msg) => (JsapiState::Finished, JsapiAction::Finish(Err(msg))),
            JsapiEvent::Posted => (JsapiState::DrawingOrderNo(t), JsapiAction::DrawRandomBytes),
            _ => finish_with_error(String::from_str("unexpected event")),
        },
        JsapiState::DrawingOrderNo(t) => match event {
            JsapiEvent::Failed(msg) => (JsapiState::Finished, JsapiAction::Finish(Err(msg))),
            JsapiEvent::RandomBytes(bytes) => {
                let no = random_str_from_bytes(&bytes);
                let body = YsOrderSaveRequest {
                    order_code: Some(no.clone()),
                    order_type: t.data_platform_order_type,
                    username: Some(t.openid.clone()),
                };
                (
                    JsapiState::SavingOrder(t, no),
                    JsapiAction::PostOrder(urls.order_save_url.clone(), body),
                )
            },
            _ => finish_with_error(String::from_str("unexpected event")),
        },
        JsapiState::SavingOrder(t, no) => match event {
            JsapiEvent::Failed(msg) => (JsapiState::Finished, JsapiAction::Finish(Err(msg))),
            JsapiEvent::Posted => {
                let order_type: i32 = match t.data_platform_order_type {
                    Some(v) => v,
                    None => 0,
                };
                if order_type == 3 {
                    let query = WhitelistUserData::new_with_openid(t.openid.clone());
                    (JsapiState::CheckingWhitelist(t, no), JsapiAction::QueryWhitelist(query))
                } else {
                    pay_or_fail(t, no)
                }
            },
            _ => finish_with_error(String::from_str("unexpected event")),
        },
        JsapiState::CheckingWhitelist(t, no) => match event {
            JsapiEvent::Failed(msg) => (JsapiState::Finished, JsapiAction::Finish(Err(msg))),
            JsapiEvent::WhitelistRows(rows) => {
                if rows.len() > 0 && is_free_user(&rows[0], now) {
                    let body = YsOrderSaveRequest {
                        order_code: Some(no.clone()),
                        order_type: None,
                        username: None,
                    };
                    (
                        JsapiState::EditingOrder(t, no),
                        JsapiAction::PostOrder(urls.edit_order_url.clone(), body),
                    )
                } else {
                    pay_or_fail(t, no)
                }
            },
            _ => finish_with_error(String::from_str("unexpected event")),
        },
        JsapiState::EditingOrder(_, _) => match event {
            JsapiEvent::Failed(msg) => (JsapiState::Finished, JsapiAction::Finish(Err(msg))),
            JsapiEvent::Posted => (
                JsapiState::Finished,
                JsapiAction::Finish(Ok(CheckAndPayResponse::new())),
            ),
            _ => finish_with_error(String::from_str("unexpected event")),
        },
        JsapiState::Paying(t, _) => match event {
            JsapiEvent::Failed(msg) => (JsapiState::Finished, JsapiAction::Finish(Err(msg))),
            JsapiEvent::PaySigned(sign) => match sign {
                None => finish_with_error(openid_message(&t.openid, " get sign_data failed")),
                Some(d) => {
                    let resp = CheckAndPayResponse {
                        timestamp: Some(d.timestamp),
                        nonce_str: Some(d.nonce_str),
                        package: Some(d.package),
                        sign_type: Some(d.sign_type),
                        pay_sign: Some(d.pay_sign),
                    };
                    (JsapiState::Finished, JsapiAction::Finish(Ok(resp)))
                },
            },
            _ => finish_with_error(String::from_str("unexpected event")),
        },
    }
}

/// `time::OffsetDateTime::now_utc().unix_timestamp()`: the current time in
/// seconds since the Unix epoch as the system clock reads it. Nothing is
/// stated of the value, which depends on the clock.
#[verifier::external_body]
fn unix_timestamp_now() -> (t: i64) {
    time::OffsetDateTime::now_utc().unix_timestamp()
}

/// Moves the flow on one event, reading the clock (as an unsigned number of
/// seconds) when a whitelist row has to be judged.
pub fn jsapi_step(urls: &JsapiUrls, state: JsapiState, event: JsapiEvent) -> (r: (
    JsapiState,
    JsapiAction,
))
    ensures
        exists|now: u64| jsapi_step_spec(*urls, state, event, now, r.0, r.1),
{
    let needs_clock = match &state {
        JsapiState::CheckingWhitelist(_, _) => match &event {
            JsapiEvent::WhitelistRows(rows) => rows.len() > 0,
            _ => false,
        },
        _ => false,
    };
    let now: u64 = if needs_clock {
        unix_timestamp_now() as u64
    } else {
        0
    };
    let ghost (s0, e0) = (state, event);
    let r = jsapi_step_at(urls, state, event, now);
    assert(jsapi_step_spec(*urls, s0, e0, now, r.0, r.1));
    r
}

/// The payment asked for is the target's amount, under order number `no`,
/// for the target's payer.
pub open spec fn charges(t: PaymentTarget, no: String, action: JsapiAction) -> bool {
    match action {
        JsapiAction::RequestPayment(p) => p.out_trade_no == no && t.amount == Some(p.amount)
            && p.openid == t.openid && p.description@ == pay_description(),
        _ => false,
    }
}

/// Law: a payer whose first whitelist row is free at the time of the check
/// is not charged; the flow marks the order as settled instead.
pub proof fn law_free_user_not_charged(
    urls: JsapiUrls,
    state: JsapiState,
    event: JsapiEvent,
    now: u64,
    next: JsapiState,
    action: JsapiAction,
)
    requires
        state is CheckingWhitelist,
        event matches JsapiEvent::WhitelistRows(rows) && rows@.len() > 0 && free_user_at(
            rows@[0],
            now,
        ),
        jsapi_step_spec(urls, state, event, now, next, action),
    ensures
        !(action is RequestPayment),
        next is EditingOrder,
        action matches JsapiAction::PostOrder(url, body) && url == urls.edit_order_url
            && body.order_type is None && body.username is None,
{
}

/// Law: WeChat pay is only asked, once the order is saved, for the request's
/// amount under the saved order number and for the request's payer; the flow
/// then waits for the payment.
pub proof fn law_payment_matches_saved_order(
    urls: JsapiUrls,
    state: JsapiState,
    event: JsapiEvent,
    now: u64,
    next: JsapiState,
    action: JsapiAction,
)
    requires
        action is RequestPayment,
        jsapi_step_spec(urls, state, event, now, next, action),
    ensures
        match state {
            JsapiState::SavingOrder(t, no) => charges(t, no, action) && next
                == JsapiState::Paying(t, no),
            JsapiState::CheckingWhitelist(t, no) => charges(t, no, action) && next
                == JsapiState::Paying(t, no),
            _ => false,
        },
{
}

/// Law: the whitelist is consulted only for orders of type 3, and only for
/// the request's payer.
pub proof fn law_whitelist_only_for_order_type_3(
    urls: JsapiUrls,
    state: JsapiState,
    event: JsapiEvent,
    now: u64,
    next: JsapiState,
    action: JsapiAction,
)
    requires
        action is QueryWhitelist,
        jsapi_step_spec(urls, state, event, now, next, action),
    ensures
        match (state, action) {
            (JsapiState::SavingOrder(t, _), JsapiAction::QueryWhitelist(q)) => t.data_platform_order_type
                == Some(3i32) && q.openid == Some(t.openid),
            _ => false,
        },
{
}

/// Law: a whitelisted user whose status is present and not 1 always pays,
/// and so does one whose validity window (both times present) does not hold
/// the time of the check strictly inside it.
pub proof fn law_disabled_or_expired_user_pays(user: WhitelistUserData, now: u64)
    ensures
        (user.status matches Some(s) && s != 1) ==> !free_user_at(user, now),
        (user.added_time matches Some(a) && user.expiration_date matches Some(e) && !(a < now
            && now < e)) ==> !free_user_at(user, now),
{
}

/// Law: every order POST carries the payer's data. The order save goes to the
/// order-save URL with the new order number, the request's order type and
/// the payer; the settling of a free order goes to the edit URL with the
/// saved order number alone.
pub proof fn law_order_posts_carry_target(
    urls: JsapiUrls,
    state: JsapiState,
    event: JsapiEvent,
    now: u64,
    next: JsapiState,
    action: JsapiAction,
)
    requires
        action is PostOrder,
        jsapi_step_spec(urls, state, event, now, next, action),
    ensures
        match (state, action) {
            (JsapiState::DrawingOrderNo(t), JsapiAction::PostOrder(url, body)) => {
                &&& url == urls.order_save_url
                &&& body.order_type == t.data_platform_order_type
                &&& body.username == Some(t.openid)
                &&& match next {
                    JsapiState::SavingOrder(t2, no) => t2 == t && body.order_code == Some(no),
                    _ => false,
                }
            },
            (JsapiState::CheckingWhitelist(_, no), JsapiAction::PostOrder(url, body)) => {
                &&& url == urls.edit_order_url
                &&& body.order_code == Some(no)
                &&& body.order_type is None
                &&& body.username is None
            },
            _ => false,
        },
{
}

/// Law: from a request with a payer, the flow saves the customer, draws the
/// order number and then saves the order under that number (the bytes in
/// upper-case hex) with the request's order type and payer.
pub proof fn law_saved_order_carries_request(
    urls: JsapiUrls,
    req: CheckAndPayRequest,
    s1: JsapiState,
    a1: JsapiAction,
    now1: u64,
    s2: JsapiState,
    a2: JsapiAction,
    bytes: [u8; 16],
    now2: u64,
    s3: JsapiState,
    a3: JsapiAction,
)
    requires
        req.openid is Some,
        jsapi_start_spec(urls, req, s1, a1),
        jsapi_step_spec(urls, s1, JsapiEvent::Posted, now1, s2, a2),
        jsapi_step_spec(urls, s2, JsapiEvent::RandomBytes(bytes), now2, s3, a3),
    ensures
        a2 is DrawRandomBytes,
        match a3 {
            JsapiAction::PostOrder(url, body) => {
                &&& url == urls.order_save_url
                &&& body.order_type == req.data_platform_order_type
                &&& body.username == req.openid
                &&& match body.order_code {
                    Some(no) => no@ == hex_upper(bytes@),
                    None => false,
                }
            },
            _ => false,
        },
{
}

/// Law: a finished flow stays finished and answers nothing more.
pub proof fn law_finished_is_final(
    urls: JsapiUrls,
    event: JsapiEvent,
    now: u64,
    next: JsapiState,
    action: JsapiAction,
)
    requires
        jsapi_step_spec(urls, JsapiState::Finished, event, now, next, action),
    ensures
        next is Finished,
        action matches JsapiAction::Finish(Err(_)),
{
}

} // verus!
