use task_tracker::{Error, Status, TaskManager, Timestamp};

fn at(secs: i64) -> Timestamp {
    Timestamp::new(secs, 0, 0)
}

fn shown(manager: &TaskManager) -> Vec<(usize, String, Status, Timestamp, Timestamp)> {
    manager
        .list(None)
        .iter()
        .map(|t| (t.id(), t.description().to_string(), t.status(), t.created_at(), t.updated_at()))
        .collect()
}

#[test]
fn a_new_manager_is_empty() {
    assert!(TaskManager::new().list(None).is_empty());
    assert_eq!(TaskManager::default(), TaskManager::new());
}

#[test]
fn manager_update_takes_both_either_or_neither() {
    let mut manager = TaskManager::new();
    manager.add_at("a".to_string(), at(1));
    manager.add_at("b".to_string(), at(2));
    assert_eq!(manager.update_at(1, Some("A".to_string()), Some(Status::Done), at(3)), Ok(()));
    assert_eq!(shown(&manager)[0], (1, "A".to_string(), Status::Done, at(1), at(3)));
    assert_eq!(manager.update_at(1, None, Some(Status::InProgress), at(4)), Ok(()));
    assert_eq!(shown(&manager)[0], (1, "A".to_string(), Status::InProgress, at(1), at(4)));
    assert_eq!(manager.update_at(1, Some("a again".to_string()), None, at(5)), Ok(()));
    assert_eq!(shown(&manager)[0], (1, "a again".to_string(), Status::InProgress, at(1), at(5)));
    assert_eq!(manager.update_at(1, None, None, at(6)), Ok(()));
    assert_eq!(shown(&manager)[0], (1, "a again".to_string(), Status::InProgress, at(1), at(6)));
    assert_eq!(shown(&manager)[1], (2, "b".to_string(), Status::Todo, at(2), at(2)));
}

#[test]
fn manager_update_is_dated_at_the_time_given() {
    let mut manager = TaskManager::new();
    manager.add_at("a".to_string(), at(10));
    assert_eq!(manager.update_at(1, Some("b".to_string()), Some(Status::Done), at(4)), Ok(()));
    assert_eq!(shown(&manager)[0], (1, "b".to_string(), Status::Done, at(10), at(4)));
    assert_eq!(manager.update_at(1, None, None, at(3)), Ok(()));
    assert_eq!(shown(&manager)[0], (1, "b".to_string(), Status::Done, at(10), at(3)));
    assert_eq!(manager.update_at(1, None, Some(Status::Todo), at(2)), Ok(()));
    assert_eq!(shown(&manager)[0], (1, "b".to_string(), Status::Todo, at(10), at(2)));
    assert_eq!(manager.update_at(1, Some("c".to_string()), None, at(1)), Ok(()));
    assert_eq!(shown(&manager)[0], (1, "c".to_string(), Status::Todo, at(10), at(1)));
}

#[test]
fn manager_update_of_a_missing_id_changes_nothing() {
    let mut manager = TaskManager::new();
    manager.add_at("a".to_string(), at(1));
    let before = shown(&manager);
    assert_eq!(
        manager.update_at(2, Some("x".to_string()), Some(Status::Done), at(3)),
        Err(Error::NotFound(2))
    );
    assert_eq!(manager.update(2, None, None), Err(Error::NotFound(2)));
    assert_eq!(manager.delete(2), Err(Error::NotFound(2)));
    assert_eq!(shown(&manager), before);
}

#[test]
fn manager_with_the_clock() {
    let mut manager = TaskManager::new();
    manager.add("a".to_string());
    let created = shown(&manager)[0].3;
    assert_eq!(shown(&manager)[0].4, created);
    assert_eq!(manager.update(1, None, Some(Status::Done)), Ok(()));
    assert_eq!(shown(&manager)[0].2, Status::Done);
    assert_eq!(shown(&manager)[0].3, created);
    assert!(shown(&manager)[0].4.secs > 1_600_000_000);
}

#[test]
fn manager_deletes_and_lists() {
    let mut manager = TaskManager::new();
    manager.add_at("a".to_string(), at(1));
    manager.add_at("b".to_string(), at(2));
    manager.add_at("c".to_string(), at(3));
    assert_eq!(manager.update_at(3, None, Some(Status::Done), at(4)), Ok(()));
    assert_eq!(manager.delete(2), Ok(()));
    let ids: Vec<usize> = manager.list(None).iter().map(|t| t.id()).collect();
    assert_eq!(ids, vec![1, 3]);
    let done: Vec<usize> = manager.list(Some(Status::Done)).iter().map(|t| t.id()).collect();
    assert_eq!(done, vec![3]);
    manager.add_at("d".to_string(), at(5));
    let ids: Vec<usize> = manager.list(None).iter().map(|t| t.id()).collect();
    assert_eq!(ids, vec![1, 3, 4]);
}
