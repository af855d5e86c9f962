//! The services behind the routes, and the in-memory task table.

pub mod platform;
pub mod swagger;
pub mod token;
pub mod wechatpay;

use crate::models::Task;
use std::collections::HashMap;
use vstd::prelude::*;

verus! {

/// The tasks kept in memory, by id.
pub struct AppState {
    pub tasks: HashMap<usize, Task>,
}

impl AppState {
    /// No tasks.
    pub fn new() -> (s: Self)
        ensures
            s.tasks@ == Map::<usize, Task>::empty(),
    {
        AppState { tasks: HashMap::new() }
    }
}

} // verus!
