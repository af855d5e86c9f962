//! Requests to the utility (swagger) service.

use vstd::prelude::*;

verus! {

/// Saves a customer: member type and user name.
pub struct YsCustomerSaveRequest {
    pub member_type: Option<String>,
    pub username: Option<String>,
}

/// Saves an order, or changes its status when only the order code is given.
pub struct YsOrderSaveRequest {
    pub order_code: Option<String>,
    pub order_type: Option<i32>,
    pub username: Option<String>,
}

} // verus!
