//! What the token routes answer.

use crate::config::IntegrationConfig;
use vstd::prelude::*;

verus! {

/// `serde_json::Error`, the error of JSON serialization.
#[verifier::external_type_specification]
#[verifier::external_body]
pub struct ExJsonError(serde_json::Error);

/// The compact JSON text of an object whose members are the given string
/// entries, as `serde_json` writes it.
pub uninterp spec fn json_object_text(entries: Seq<(Seq<char>, Seq<char>)>) -> Seq<char>;

/// `serde_json::to_string` of a `serde_json::Value::Object` whose members
/// map each key to the string value. Claimed: it succeeds (serde_json's
/// `to_string` fails only when a `Serialize` impl fails or a map has
/// non-string keys; `Value` serializes without failing of its own and every
/// key here is a string), and its text is the name `json_object_text`
/// applied to the entries.
#[verifier::external_body]
fn json_object_string(entries: &Vec<(String, String)>) -> (r: Result<String, serde_json::Error>)
    ensures
        r is Ok,
        r matches Ok(s) ==> s@ == json_object_text(entries.deep_view()),
{
    let map: serde_json::Map<String, serde_json::Value> = entries.iter().map(
        |e| (e.0.clone(), serde_json::Value::String(e.1.clone())),
    ).collect();
    serde_json::to_string(&serde_json::Value::Object(map))
}

/// A serialized object, or `{}` when serialization failed.
pub fn object_text_or_empty(r: Result<String, serde_json::Error>) -> (body: String)
    ensures
        body@ == match r {
            Ok(s) => s@,
            Err(_) => "{}"@,
        },
{
    match r {
        Ok(s) => s,
        Err(_) => String::from_str("{}"),
    }
}

/// The body of a route that answers a serialized object: the text, or `{}`
/// when the service or the serialization failed.
pub fn object_body(serialized: Option<String>) -> (body: String)
    ensures
        body@ == match serialized {
            Some(s) => s@,
            None => "{}"@,
        },
{
    match serialized {
        Some(s) => s,
        None => String::from_str("{}"),
    }
}

/// The members of the OSS token answer.
pub open spec fn oss_token_entries(conf: IntegrationConfig) -> Seq<(Seq<char>, Seq<char>)> {
    seq![
        ("ossEndpoint"@, conf.aliyun_oss_endpoint@),
        ("ossAccessKeyId"@, conf.aliyun_oss_access_key_id@),
        ("ossAccessKeySecret"@, conf.aliyun_oss_access_key_secret@),
    ]
}

/// The members of the mini-program token answer.
pub open spec fn miniprogram_token_entries(conf: IntegrationConfig) -> Seq<(Seq<char>, Seq<char>)> {
    seq![("appid"@, conf.wechat_appid@), ("secret"@, conf.wechat_secret@)]
}

/// Appends a string entry.
fn push_entry(entries: &mut Vec<(String, String)>, key: &str, value: &String)
    ensures
        final(entries).deep_view() == old(entries).deep_view().push((key@, value@)),
{
    let ghost before = entries.deep_view();
    entries.push((String::from_str(key), value.clone()));
    assert(entries.deep_view() =~= before.push((key@, value@)));
}

/// The OSS endpoint and access key as a JSON object.
pub fn oss_token_body(conf: &IntegrationConfig) -> (body: String)
    ensures
        body@ == json_object_text(oss_token_entries(*conf)),
{
    let mut entries: Vec<(String, String)> = Vec::new();
    push_entry(&mut entries, "ossEndpoint", &conf.aliyun_oss_endpoint);
    push_entry(&mut entries, "ossAccessKeyId", &conf.aliyun_oss_access_key_id);
    push_entry(&mut entries, "ossAccessKeySecret", &conf.aliyun_oss_access_key_secret);
    assert(entries.deep_view() =~= oss_token_entries(*conf));
    object_text_or_empty(json_object_string(&entries))
}

/// The mini-program credentials as a JSON object.
pub fn miniprogram_token_body(conf: &IntegrationConfig) -> (body: String)
    ensures
        body@ == json_object_text(miniprogram_token_entries(*conf)),
{
    let mut entries: Vec<(String, String)> = Vec::new();
    push_entry(&mut entries, "appid", &conf.wechat_appid);
    push_entry(&mut entries, "secret", &conf.wechat_secret);
    assert(entries.deep_view() =~= miniprogram_token_entries(*conf));
    object_text_or_empty(json_object_string(&entries))
}

} // verus!
