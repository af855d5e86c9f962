use miki_backend::models::Task;
use miki_backend::routes::{create_task, delete_task, get_task, update_task, TaskReply};
use miki_backend::services::AppState;

fn task(id: usize, title: &str) -> Task {
    Task { id, title: title.to_string(), completed: false }
}

#[test]
fn created_task_is_found() {
    let mut s = AppState::new();
    assert!(get_task(&s, 1).is_none());
    assert!(create_task(&mut s, task(1, "write")) == TaskReply::Created);
    let t = get_task(&s, 1).unwrap();
    assert_eq!(t.title, "write");
    assert_eq!(t.id, 1);
}

#[test]
fn update_needs_existing_id_and_keys_by_path() {
    let mut s = AppState::new();
    assert!(update_task(&mut s, 7, task(7, "x")) == TaskReply::NotFound);
    assert!(get_task(&s, 7).is_none());
    create_task(&mut s, task(7, "old"));
    assert!(update_task(&mut s, 7, task(8, "new")) == TaskReply::Success);
    assert_eq!(get_task(&s, 7).unwrap().title, "new");
    assert_eq!(get_task(&s, 7).unwrap().id, 8);
    assert!(get_task(&s, 8).is_none());
}

#[test]
fn delete_removes_only_that_task() {
    let mut s = AppState::new();
    create_task(&mut s, task(1, "a"));
    create_task(&mut s, task(2, "b"));
    assert!(delete_task(&mut s, 1) == TaskReply::Success);
    assert!(get_task(&s, 1).is_none());
    assert_eq!(get_task(&s, 2).unwrap().title, "b");
    assert!(delete_task(&mut s, 1) == TaskReply::NotFound);
}
