//! What the whitelist routes answer.

use crate::routes::{res_count, res_count_body};
use vstd::prelude::*;

verus! {

/// The body of the delete, insert and update routes: the affected row count
/// as `{"res":N}`; on failure the text `{{"res":0}}`, braces doubled as the
/// service has always sent it.
pub fn rows_affected_body(rows_affected: Option<u64>) -> (body: String)
    ensures
        body@ == match rows_affected {
            Some(n) => res_count_body(n),
            None => "{{\"res\":0}}"@,
        },
{
    match rows_affected {
        Some(n) => res_count(n),
        None => String::from_str("{{\"res\":0}}"),
    }
}

/// The body of the query route: the serialized rows, or `[]` when the query
/// or the serialization failed.
pub fn query_body(serialized: Option<String>) -> (body: String)
    ensures
        body@ == match serialized {
            Some(s) => s@,
            None => "[]"@,
        },
{
    match serialized {
        Some(s) => s,
        None => String::from_str("[]"),
    }
}

} // verus!
