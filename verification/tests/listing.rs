use todo_store::listing::{format_columns, ID_WIDTH, RULE_WIDTH, STATUS_WIDTH};
use todo_store::store::TodoManager;
use todo_store::task::Todo;

fn task(id: usize, description: &str, completed: bool) -> Todo {
    Todo { id, description: description.to_string(), completed }
}

#[test]
fn column_widths() {
    assert_eq!(ID_WIDTH, 5);
    assert_eq!(STATUS_WIDTH, 10);
    assert_eq!(RULE_WIDTH, 30);
}

#[test]
fn columns_are_separated_by_one_space() {
    assert_eq!(format_columns("ID", "Status", "Description"), "ID    Status     Description");
    assert_eq!(format_columns("1", "[ ]", "buy milk"), "1     [ ]        buy milk");
    assert_eq!(format_columns("", "", ""), "                 ");
    assert_eq!(
        format_columns("7", "[x]", "t"),
        format!("{:<5} {:<10} {}", 7, "[x]", "t")
    );
}

#[test]
fn wide_cells_push_the_rest_to_the_right() {
    assert_eq!(format_columns("123456", "[x]", "far"), "123456 [x]        far");
    assert_eq!(format_columns("1", "0123456789ab", "z"), "1     0123456789ab z");
}

#[test]
fn list_of_an_empty_store_is_one_notice() {
    let store = TodoManager::empty();
    assert_eq!(store.list(), vec!["No todos found.".to_string()]);
}

#[test]
fn list_shows_heading_rule_and_rows_in_order() {
    let store = TodoManager::from_todos(vec![
        task(2, "write report", true),
        task(1, "buy milk", false),
        task(10, "", false),
    ]);
    assert_eq!(
        store.list(),
        vec![
            "ID    Status     Description".to_string(),
            "------------------------------".to_string(),
            "2     [x]        write report".to_string(),
            "1     [ ]        buy milk".to_string(),
            "10    [ ]        ".to_string(),
        ]
    );
}

#[test]
fn list_keeps_long_ids_whole() {
    let store = TodoManager::from_todos(vec![task(1234567, "big", false)]);
    assert_eq!(store.list()[2], "1234567 [ ]        big");
}

#[test]
fn list_does_not_change_the_store() {
    let tasks = vec![task(1, "a", false), task(2, "b", true)];
    let store = TodoManager::from_todos(tasks.clone());
    let first = store.list();
    let second = store.list();
    assert_eq!(first, second);
    assert_eq!(store.todos(), &tasks);
}
