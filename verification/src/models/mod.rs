//! Plain data of the task API.

use vstd::prelude::*;

verus! {

/// A to-do item.
pub struct Task {
    pub id: usize,
    pub title: String,
    pub completed: bool,
}

} // verus!
