use tasker::storage::{load_tasks, save_tasks, IndexError, TaskStore};
use tasker::tasks::Task;

fn task(description: &str) -> Task {
    Task::new(description.to_string(), None, "Личное".to_string())
}

fn store_of(descriptions: &[&str]) -> TaskStore {
    let mut store = TaskStore::new();
    for description in descriptions {
        store.append(task(description));
    }
    store
}

fn descriptions(store: &TaskStore) -> Vec<String> {
    store.tasks().iter().map(|t| t.description.clone()).collect()
}

#[test]
fn new_store_is_empty() {
    let store = TaskStore::new();
    assert_eq!(store.len(), 0);
    assert!(store.is_empty());
    assert!(store.tasks().is_empty());
    assert_eq!(store.get(0), None);
    assert_eq!(store.done_count(), 0);
    assert_eq!(TaskStore::default(), store);
}

#[test]
fn append_adds_at_the_end() {
    let store = store_of(&["a", "b", "c"]);
    assert_eq!(store.len(), 3);
    assert!(!store.is_empty());
    assert_eq!(descriptions(&store), vec!["a", "b", "c"]);
    assert_eq!(store.get(0), Some(&task("a")));
    assert_eq!(store.get(2), Some(&task("c")));
    assert_eq!(store.get(3), None);
}

#[test]
fn toggle_done_flips_in_both_directions() {
    let mut store = store_of(&["a", "b"]);
    assert_eq!(store.toggle_done(1), Ok(()));
    assert!(!store.tasks()[0].done);
    assert!(store.tasks()[1].done);
    assert_eq!(store.done_count(), 1);
    assert_eq!(store.toggle_done(1), Ok(()));
    assert!(!store.tasks()[1].done);
    assert_eq!(store, store_of(&["a", "b"]));
}

#[test]
fn toggle_done_touches_nothing_but_the_flag() {
    let mut store = TaskStore::new();
    store.append(Task::new("a".to_string(), Some("01.01.2025".to_string()), "Работа".to_string()));
    assert_eq!(store.toggle_done(0), Ok(()));
    let toggled = &store.tasks()[0];
    assert!(toggled.done);
    assert_eq!(toggled.description, "a");
    assert_eq!(toggled.deadline, Some("01.01.2025".to_string()));
    assert_eq!(toggled.category, "Работа");
}

#[test]
fn toggle_done_beyond_the_end_is_an_index_error() {
    let mut store = store_of(&["a", "b"]);
    assert_eq!(store.toggle_done(2), Err(IndexError { requested: 2, len: 2 }));
    assert_eq!(store.toggle_done(usize::MAX), Err(IndexError { requested: usize::MAX, len: 2 }));
    assert_eq!(store, store_of(&["a", "b"]));
    let mut empty = TaskStore::new();
    assert_eq!(empty.toggle_done(0), Err(IndexError { requested: 0, len: 0 }));
}

#[test]
fn remove_shifts_later_tasks_down() {
    let mut store = store_of(&["a", "b", "c", "d"]);
    assert_eq!(store.remove(1), Ok(task("b")));
    assert_eq!(descriptions(&store), vec!["a", "c", "d"]);
    assert_eq!(store.remove(2), Ok(task("d")));
    assert_eq!(descriptions(&store), vec!["a", "c"]);
    assert_eq!(store.remove(0), Ok(task("a")));
    assert_eq!(descriptions(&store), vec!["c"]);
    assert_eq!(store.remove(0), Ok(task("c")));
    assert!(store.is_empty());
}

#[test]
fn remove_beyond_the_end_is_an_index_error() {
    let mut store = store_of(&["a"]);
    assert_eq!(store.remove(1), Err(IndexError { requested: 1, len: 1 }));
    assert_eq!(store, store_of(&["a"]));
    let mut empty = TaskStore::new();
    assert_eq!(empty.remove(0), Err(IndexError { requested: 0, len: 0 }));
    assert!(empty.is_empty());
}

#[test]
fn done_count_counts_done_tasks() {
    let mut store = store_of(&["a", "b", "c", "d", "e"]);
    assert_eq!(store.done_count(), 0);
    store.toggle_done(0).unwrap();
    store.toggle_done(3).unwrap();
    assert_eq!(store.done_count(), 2);
    store.toggle_done(4).unwrap();
    store.toggle_done(1).unwrap();
    store.toggle_done(2).unwrap();
    assert_eq!(store.done_count(), 5);
    store.toggle_done(0).unwrap();
    assert_eq!(store.done_count(), 4);
}

#[test]
fn from_tasks_keeps_the_order() {
    let store = TaskStore::from_tasks(vec![task("x"), task("y")]);
    assert_eq!(store, store_of(&["x", "y"]));
    assert_eq!(store.into_tasks(), vec![task("x"), task("y")]);
}

#[test]
fn clone_is_an_equal_store() {
    let mut store = store_of(&["a", "b"]);
    store.toggle_done(0).unwrap();
    let copy = store.clone();
    assert_eq!(copy, store);
    assert!(copy.tasks()[0].done);
    assert_eq!(TaskStore::new().clone(), TaskStore::new());
}

#[test]
fn loading_nothing_gives_the_empty_store() {
    assert_eq!(load_tasks(None), TaskStore::new());
    assert!(load_tasks(None).is_empty());
}

#[test]
fn loading_a_snapshot_gives_it_back_exactly() {
    let mut done = Task::new("b".to_string(), Some("02.03.2025".to_string()), "Учёба".to_string());
    done.done = true;
    let snapshot = vec![task("a"), done.clone(), task("a")];
    let store = load_tasks(Some(snapshot.clone()));
    assert_eq!(store.len(), 3);
    assert_eq!(store.tasks(), &snapshot);
    assert_eq!(store.get(1), Some(&done));
    assert!(load_tasks(Some(Vec::new())).is_empty());
}

#[test]
fn saved_snapshot_is_the_full_sequence_in_order() {
    let mut store = store_of(&["a", "b", "c"]);
    store.toggle_done(1).unwrap();
    let snapshot = save_tasks(&store);
    assert_eq!(&snapshot, store.tasks());
    assert_eq!(snapshot.len(), 3);
    assert_eq!(snapshot[0], task("a"));
    assert!(snapshot[1].done);
    assert_eq!(snapshot[2], task("c"));
    assert_eq!(store.len(), 3);
    assert!(save_tasks(&TaskStore::new()).is_empty());
}

#[test]
fn saved_snapshot_loads_as_the_same_store() {
    let mut store = TaskStore::new();
    assert_eq!(load_tasks(Some(save_tasks(&store))), store);
    store.append(task("a"));
    assert_eq!(load_tasks(Some(save_tasks(&store))), store);
    store.append(Task::new("b".to_string(), Some("01.01.2025".to_string()), "Проект".to_string()));
    assert_eq!(load_tasks(Some(save_tasks(&store))), store);
    store.toggle_done(1).unwrap();
    assert_eq!(load_tasks(Some(save_tasks(&store))), store);
    store.append(task("a"));
    store.remove(0).unwrap();
    assert_eq!(load_tasks(Some(save_tasks(&store))), store);
    store.toggle_done(0).unwrap();
    store.remove(1).unwrap();
    assert_eq!(load_tasks(Some(save_tasks(&store))), store);
    assert_eq!(load_tasks(Some(store.clone().into_tasks())), store);
}
