//! What the routes answer: the task API over the task table, and the
//! response bodies of the other routes.

pub mod forward;
pub mod platform;
pub mod token;

use crate::models::Task;
use crate::services::AppState;
use crate::text::{decimal, push_decimal};
use vstd::prelude::*;

verus! {

broadcast use vstd::std_specs::hash::group_hash_axioms;

/// The status a task route answers with.
#[derive(PartialEq, Eq, Structural)]
pub enum TaskReply {
    /// 201: the task was stored.
    Created,
    /// 200: the task was changed or removed.
    Success,
    /// 404: there is no task with the id.
    NotFound,
}

/// Stores the task under its own id, replacing any task there.
pub fn create_task(state: &mut AppState, task: Task) -> (r: TaskReply)
    ensures
        final(state).tasks@ == old(state).tasks@.insert(task.id, task),
        r == TaskReply::Created,
{
    let id = task.id;
    state.tasks.insert(id, task);
    TaskReply::Created
}

/// The task stored under the id, if any.
pub fn get_task(state: &AppState, id: usize) -> (r: Option<&Task>)
    ensures
        match r {
            Some(t) => state.tasks@.contains_key(id) && *t == state.tasks@[id],
            None => !state.tasks@.contains_key(id),
        },
{
    state.tasks.get(&id)
}

/// Replaces the task stored under the id (the new task is stored under that
/// id whatever its own id says); nothing changes when there is none.
pub fn update_task(state: &mut AppState, id: usize, task: Task) -> (r: TaskReply)
    ensures
        old(state).tasks@.contains_key(id) ==> final(state).tasks@ == old(state).tasks@.insert(
            id,
            task,
        ) && r == TaskReply::Success,
        !old(state).tasks@.contains_key(id) ==> final(state).tasks@ == old(state).tasks@ && r
            == TaskReply::NotFound,
{
    if state.tasks.contains_key(&id) {
        state.tasks.insert(id, task);
        TaskReply::Success
    } else {
        TaskReply::NotFound
    }
}

/// Removes the task stored under the id.
pub fn delete_task(state: &mut AppState, id: usize) -> (r: TaskReply)
    ensures
        final(state).tasks@ == old(state).tasks@.remove(id),
        r == if old(state).tasks@.contains_key(id) {
            TaskReply::Success
        } else {
            TaskReply::NotFound
        },
{
    if state.tasks.remove(&id).is_some() {
        TaskReply::Success
    } else {
        TaskReply::NotFound
    }
}

/// Law: a task just created is what the table gives back for its id.
pub proof fn law_get_after_create(tasks: Map<usize, Task>, task: Task)
    ensures
        tasks.insert(task.id, task).contains_key(task.id),
        tasks.insert(task.id, task)[task.id] == task,
{
}

/// Law: after a delete the id is unknown, and other ids keep their tasks.
pub proof fn law_get_after_delete(tasks: Map<usize, Task>, id: usize, other: usize)
    ensures
        !tasks.remove(id).contains_key(id),
        other != id ==> tasks.remove(id).contains_key(other) == tasks.contains_key(other),
        other != id && tasks.contains_key(other) ==> tasks.remove(id)[other] == tasks[other],
{
}

/// Law: an update of an unknown id changes nothing; an update of a known id
/// is what the table then gives back for it.
pub proof fn law_update_only_known_ids(tasks: Map<usize, Task>, id: usize, task: Task)
    ensures
        tasks.contains_key(id) ==> tasks.insert(id, task)[id] == task,
        tasks.contains_key(id) ==> tasks.insert(id, task).dom() == tasks.dom(),
{
    if tasks.contains_key(id) {
        assert(tasks.insert(id, task).dom() =~= tasks.dom());
    }
}

/// The body answering a stored row count: `{"res":N}`.
pub open spec fn res_count_body(n: u64) -> Seq<char> {
    "{\"res\":"@ + decimal(n as nat) + "}"@
}

/// `{"res":N}`: the body that reports how many rows a command affected.
pub fn res_count(n: u64) -> (body: String)
    ensures
        body@ == res_count_body(n),
{
    let mut body = String::from_str("{\"res\":");
    push_decimal(&mut body, n);
    body.append("}");
    body
}

/// The body of the older insert route: the affected row count, or `error`.
pub fn insert_whitelist_user_body(rows_affected: Option<u64>) -> (body: String)
    ensures
        body@ == match rows_affected {
            Some(n) => res_count_body(n),
            None => "error"@,
        },
{
    match rows_affected {
        Some(n) => res_count(n),
        None => String::from_str("error"),
    }
}

/// The body of the older query route when the query failed: `some error:{e}`.
pub fn query_whitelist_user_error_body(error: &str) -> (body: String)
    ensures
        body@ == "some error:"@ + error@,
{
    let mut body = String::from_str("some error:");
    body.append(error);
    body
}

} // verus!
