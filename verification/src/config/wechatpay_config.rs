//! WeChat-pay merchant settings.

use vstd::prelude::*;

verus! {

/// Merchant identity, key material and endpoints for WeChat pay.
pub struct Config {
    pub appid: String,
    pub mch_id: String,
    pub private_key: String,
    pub serial_no: String,
    pub v3_key: String,
    pub notify_url: String,
    pub base_url: String,
}

} // verus!
