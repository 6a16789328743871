use todo_store::store::TodoManager;
use todo_store::task::Todo;

fn task(id: usize, description: &str, completed: bool) -> Todo {
    Todo { id, description: description.to_string(), completed }
}

fn store_of(tasks: Vec<Todo>) -> TodoManager {
    TodoManager::from_todos(tasks)
}

#[test]
fn new_task_is_pending() {
    let todo = Todo::new(4, "water plants".to_string());
    assert_eq!(todo, task(4, "water plants", false));
}

#[test]
fn empty_store_has_no_tasks() {
    let store = TodoManager::empty();
    assert!(store.is_empty());
    assert_eq!(store.len(), 0);
    assert_eq!(store.todos(), &Vec::<Todo>::new());
    assert_eq!(store.largest_id(), 0);
    assert_eq!(store.next_id(), Some(1));
}

#[test]
fn add_to_empty_store_gives_id_one() {
    let mut store = TodoManager::empty();
    let id = store.add("buy milk".to_string());
    assert_eq!(id, 1);
    assert_eq!(store.todos(), &vec![task(1, "buy milk", false)]);
    assert_eq!(store.len(), 1);
    assert!(!store.is_empty());
}

#[test]
fn adds_in_a_row_count_up_from_the_largest_id() {
    let mut store = store_of(vec![task(7, "x", true), task(3, "y", false)]);
    assert_eq!(store.largest_id(), 7);
    assert_eq!(store.next_id(), Some(8));
    assert_eq!(store.add("a".to_string()), 8);
    assert_eq!(store.next_id(), Some(9));
    assert_eq!(store.add("b".to_string()), 9);
    assert_eq!(store.add("c".to_string()), 10);
    assert_eq!(
        store.todos(),
        &vec![
            task(7, "x", true),
            task(3, "y", false),
            task(8, "a", false),
            task(9, "b", false),
            task(10, "c", false),
        ]
    );
}

#[test]
fn add_accepts_an_empty_description() {
    let mut store = TodoManager::empty();
    assert_eq!(store.add(String::new()), 1);
    assert_eq!(store.todos(), &vec![task(1, "", false)]);
}

#[test]
fn largest_id_is_found_wherever_it_stands() {
    assert_eq!(store_of(vec![task(9, "a", false), task(2, "b", false)]).largest_id(), 9);
    assert_eq!(store_of(vec![task(2, "a", false), task(9, "b", false)]).largest_id(), 9);
    assert_eq!(
        store_of(vec![task(2, "a", false), task(9, "b", false), task(4, "c", false)]).largest_id(),
        9
    );
    assert_eq!(store_of(vec![task(0, "a", false)]).largest_id(), 0);
}

#[test]
fn next_id_is_none_when_the_largest_id_is_the_last_one() {
    let store = store_of(vec![task(usize::MAX, "last", false)]);
    assert_eq!(store.largest_id(), usize::MAX);
    assert_eq!(store.next_id(), None);
    let below = store_of(vec![task(usize::MAX - 1, "almost", false)]);
    assert_eq!(below.next_id(), Some(usize::MAX));
}

#[test]
fn position_is_that_of_the_first_match() {
    let store = store_of(vec![task(5, "a", false), task(6, "b", false), task(5, "c", false)]);
    assert_eq!(store.position(5), Some(0));
    assert_eq!(store.position(6), Some(1));
    assert_eq!(store.position(7), None);
    assert_eq!(TodoManager::empty().position(1), None);
}

#[test]
fn complete_marks_the_task_and_leaves_the_others() {
    let mut store = store_of(vec![task(1, "a", false), task(2, "b", false)]);
    assert!(store.complete(2));
    assert_eq!(store.todos(), &vec![task(1, "a", false), task(2, "b", true)]);
}

#[test]
fn complete_twice_is_the_same_as_once() {
    let mut store = store_of(vec![task(1, "a", false), task(2, "b", false)]);
    assert!(store.complete(1));
    let once = store.todos().clone();
    assert!(store.complete(1));
    assert_eq!(store.todos(), &once);
    assert_eq!(store.todos(), &vec![task(1, "a", true), task(2, "b", false)]);
}

#[test]
fn complete_marks_only_the_first_of_two_with_the_same_id() {
    let mut store = store_of(vec![task(3, "a", false), task(3, "b", false)]);
    assert!(store.complete(3));
    assert_eq!(store.todos(), &vec![task(3, "a", true), task(3, "b", false)]);
    assert!(store.complete(3));
    assert_eq!(store.todos(), &vec![task(3, "a", true), task(3, "b", false)]);
}

#[test]
fn complete_of_a_missing_id_changes_nothing() {
    let before = vec![task(1, "a", false), task(2, "b", true)];
    let mut store = store_of(before.clone());
    assert!(!store.complete(3));
    assert_eq!(store.todos(), &before);
    let mut empty = TodoManager::empty();
    assert!(!empty.complete(1));
    assert!(empty.is_empty());
}

#[test]
fn remove_of_a_missing_id_changes_nothing() {
    let before = vec![task(1, "a", false), task(2, "b", true)];
    let mut store = store_of(before.clone());
    assert!(!store.remove(0));
    assert_eq!(store.todos(), &before);
    let mut empty = TodoManager::empty();
    assert!(!empty.remove(1));
    assert!(empty.is_empty());
}

#[test]
fn remove_closes_the_gap_and_the_next_add_does_not_fill_it() {
    let mut store = store_of(vec![task(1, "a", false), task(2, "b", false), task(3, "c", false)]);
    assert!(store.remove(2));
    assert_eq!(store.todos(), &vec![task(1, "a", false), task(3, "c", false)]);
    assert_eq!(store.add("d".to_string()), 4);
    assert_eq!(
        store.todos(),
        &vec![task(1, "a", false), task(3, "c", false), task(4, "d", false)]
    );
}

#[test]
fn remove_takes_only_the_first_of_two_with_the_same_id() {
    let mut store = store_of(vec![task(3, "a", false), task(1, "b", false), task(3, "c", true)]);
    assert!(store.remove(3));
    assert_eq!(store.todos(), &vec![task(1, "b", false), task(3, "c", true)]);
}

#[test]
fn remove_of_the_largest_id_lets_the_next_add_take_it_again() {
    let mut store = store_of(vec![task(1, "a", false), task(2, "b", false), task(3, "c", false)]);
    assert!(store.remove(3));
    assert_eq!(store.add("d".to_string()), 3);
}

#[test]
fn remove_of_the_only_task_empties_the_store() {
    let mut store = store_of(vec![task(5, "a", false)]);
    assert!(store.remove(5));
    assert!(store.is_empty());
    assert_eq!(store.add("b".to_string()), 1);
}

#[test]
fn what_a_store_hands_out_reopens_as_the_same_store() {
    let mut store = store_of(vec![task(4, "a", true), task(2, "", false)]);
    store.add("third".to_string());
    let handed_out = store.todos().clone();
    let reopened = TodoManager::from_todos(handed_out);
    assert_eq!(reopened.todos(), store.todos());
    assert_eq!(
        reopened.todos(),
        &vec![task(4, "a", true), task(2, "", false), task(5, "third", false)]
    );
}

#[test]
fn adds_from_empty_count_from_one() {
    let mut store = TodoManager::empty();
    let descriptions = ["a", "b", "", "d", "e"];
    let mut expected: Vec<Todo> = Vec::new();
    for (k, description) in descriptions.iter().enumerate() {
        assert_eq!(store.add(description.to_string()), k + 1);
        expected.push(task(k + 1, description, false));
        assert_eq!(store.todos(), &expected);
    }
    assert_eq!(store.len(), descriptions.len());
}
