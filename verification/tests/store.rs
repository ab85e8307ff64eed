use task_store::category::Category;
use task_store::error::{Collection, StoreError};
use task_store::store::{
    delete_todo_item_permanently, empty_trash_bin, get_trash_data, load_categories, load_todos,
    load_trash, read_data, restore_todo_item, save_categories, save_todos, save_trash,
    trash_todo_item, write_data,
};
use task_store::task::Task;

fn todo(id: u64, trashed_at: Option<&str>) -> Task {
    Task {
        id,
        text: format!("todo number {}", id),
        completed: id % 3 == 0,
        created_at: format!("2024-05-01T10:00:{:02}.000Z", id % 60),
        due_date: if id % 2 == 0 { Some("2024-06-01T00:00:00.000Z".to_string()) } else { None },
        category: if id % 5 == 0 {
            Some(Category {
                id: 100 + id,
                name: "Home".to_string(),
                color: "#123456".to_string(),
                parent_id: if id % 10 == 0 { Some(1) } else { None },
            })
        } else {
            None
        },
        position: id,
        trashed_at: trashed_at.map(|t| t.to_string()),
    }
}

fn malformed(file: &str, diagnostic: &str) -> StoreError {
    StoreError::MalformedDocument { file: file.to_string(), diagnostic: diagnostic.to_string() }
}

#[test]
fn missing_file_is_an_empty_collection() {
    assert_eq!(load_todos(None), Ok(vec![]));
    assert_eq!(load_trash(None), Ok(vec![]));
    assert_eq!(get_trash_data(None), Ok(vec![]));
    assert_eq!(load_categories(None), Ok(vec![]));
    assert_eq!(read_data::<Task>("anything.json", None), Ok(vec![]));
}

#[test]
fn empty_file_is_an_empty_collection() {
    assert_eq!(load_todos(Some("")), Ok(vec![]));
    assert_eq!(load_trash(Some("   \n")), Ok(vec![]));
    assert_eq!(load_categories(Some("\t")), Ok(vec![]));
}

#[test]
fn one_hundred_and_fifty_tasks_load_back() {
    let tasks: Vec<Task> = (0..150).map(|id| todo(id, None)).collect();
    let text = save_todos(&tasks);
    assert!(!text.contains('\n'));
    assert_eq!(load_todos(Some(&text)), Ok(tasks));
}

#[test]
fn saved_collections_load_back() {
    let tasks: Vec<Task> = (0..7).map(|id| todo(id, None)).collect();
    assert_eq!(load_todos(Some(&save_todos(&tasks))), Ok(tasks.clone()));
    assert_eq!(read_data::<Task>("todos.json", Some(&write_data(&tasks))), Ok(tasks));
    let trash: Vec<Task> = (0..7).map(|id| todo(id, Some("T"))).collect();
    assert_eq!(load_trash(Some(&save_trash(&trash))), Ok(trash.clone()));
    assert_eq!(get_trash_data(Some(&save_trash(&trash))), Ok(trash));
    let categories = vec![
        Category { id: 1, name: "Work".to_string(), color: "#f00".to_string(), parent_id: None },
        Category { id: 2, name: "Mail".to_string(), color: "#0f0".to_string(), parent_id: Some(1) },
        Category { id: 3, name: "Lost".to_string(), color: "#00f".to_string(), parent_id: Some(99) },
    ];
    assert_eq!(load_categories(Some(&save_categories(&categories))), Ok(categories));
}

#[test]
fn order_of_records_is_kept_as_given() {
    let tasks = vec![todo(3, None), todo(1, None), todo(2, None)];
    let loaded = load_todos(Some(&save_todos(&tasks))).unwrap();
    let ids: Vec<u64> = loaded.iter().map(|t| t.id).collect();
    assert_eq!(ids, vec![3, 1, 2]);
}

#[test]
fn errors_name_the_file_of_the_collection() {
    assert_eq!(load_todos(Some("{")), Err(malformed("todos.json", "EOF while parsing an object at line 1 column 1")));
    assert_eq!(load_trash(Some("{}")), Err(malformed("trash.json", "expected an array of records")));
    assert_eq!(get_trash_data(Some("{}")), Err(malformed("trash.json", "expected an array of records")));
    assert_eq!(
        load_categories(Some("[{}]")),
        Err(malformed("categories.json", "record 0 does not have the expected shape"))
    );
    assert_eq!(
        read_data::<Task>("other.json", Some("[0]")),
        Err(malformed("other.json", "record 0 does not have the expected shape"))
    );
}

#[test]
fn delete_command_gives_the_new_trash_document() {
    let trash = vec![todo(9, Some("T"))];
    let doc = save_trash(&trash);
    let after = delete_todo_item_permanently(Some(&doc), 9).unwrap();
    assert_eq!(after, "[]");
    assert_eq!(load_trash(Some(&after)), Ok(vec![]));
    assert_eq!(
        delete_todo_item_permanently(Some(&after), 9),
        Err(StoreError::NotFound { id: 9, collection: Collection::Trash })
    );
}

#[test]
fn delete_command_keeps_the_other_tasks() {
    let trash = vec![todo(1, Some("T")), todo(2, Some("T")), todo(3, Some("T"))];
    let after = delete_todo_item_permanently(Some(&save_trash(&trash)), 2).unwrap();
    assert_eq!(after, save_trash(&vec![todo(1, Some("T")), todo(3, Some("T"))]));
}

#[test]
fn delete_command_fails_on_missing_or_malformed_trash() {
    assert_eq!(
        delete_todo_item_permanently(None, 1),
        Err(StoreError::NotFound { id: 1, collection: Collection::Trash })
    );
    assert_eq!(
        delete_todo_item_permanently(Some(""), 1),
        Err(StoreError::NotFound { id: 1, collection: Collection::Trash })
    );
    assert_eq!(
        delete_todo_item_permanently(Some("{}"), 1),
        Err(malformed("trash.json", "expected an array of records"))
    );
}

#[test]
fn restore_command_gives_both_new_documents() {
    let trash = vec![todo(5, Some("T")), todo(6, Some("T"))];
    let todos = vec![todo(1, None)];
    let (new_trash, new_todos) =
        restore_todo_item(Some(&save_trash(&trash)), Some(&save_todos(&todos)), 5).unwrap();
    assert_eq!(load_trash(Some(&new_trash)), Ok(vec![todo(6, Some("T"))]));
    assert_eq!(load_todos(Some(&new_todos)), Ok(vec![todo(1, None), todo(5, None)]));
    assert!(!new_todos.contains("trashedAt"));
}

#[test]
fn restore_command_works_without_a_todos_file() {
    let trash = vec![todo(5, Some("T"))];
    let (new_trash, new_todos) = restore_todo_item(Some(&save_trash(&trash)), None, 5).unwrap();
    assert_eq!(new_trash, "[]");
    assert_eq!(load_todos(Some(&new_todos)), Ok(vec![todo(5, None)]));
}

#[test]
fn restore_command_looks_into_the_trash_first() {
    assert_eq!(
        restore_todo_item(Some("{}"), Some("oops"), 5),
        Err(malformed("trash.json", "expected an array of records"))
    );
    assert_eq!(
        restore_todo_item(Some("[]"), Some("{}"), 5),
        Err(StoreError::NotFound { id: 5, collection: Collection::Trash })
    );
    assert_eq!(
        restore_todo_item(Some("[]"), Some("oops"), 5),
        Err(StoreError::NotFound { id: 5, collection: Collection::Trash })
    );
    let trash = save_trash(&vec![todo(6, Some("T"))]);
    assert_eq!(
        restore_todo_item(Some(&trash), Some("oops"), 5),
        Err(StoreError::NotFound { id: 5, collection: Collection::Trash })
    );
    assert_eq!(
        restore_todo_item(Some("[]"), Some("[]"), 5),
        Err(StoreError::NotFound { id: 5, collection: Collection::Trash })
    );
    assert_eq!(
        restore_todo_item(None, None, 5),
        Err(StoreError::NotFound { id: 5, collection: Collection::Trash })
    );
}

#[test]
fn restore_command_needs_the_active_tasks_once_the_task_is_found() {
    let trash = save_trash(&vec![todo(5, Some("T"))]);
    assert_eq!(
        restore_todo_item(Some(&trash), Some("{}"), 5),
        Err(malformed("todos.json", "expected an array of records"))
    );
    assert_eq!(
        restore_todo_item(Some(&trash), Some("[1"), 5),
        Err(malformed("todos.json", "EOF while parsing a list at line 1 column 2"))
    );
}

#[test]
fn trash_command_gives_both_new_documents() {
    let todos = vec![todo(1, None), todo(2, None)];
    let (new_todos, new_trash) =
        trash_todo_item(Some(&save_todos(&todos)), None, 1, "NOW".to_string()).unwrap();
    assert_eq!(load_todos(Some(&new_todos)), Ok(vec![todo(2, None)]));
    assert_eq!(load_trash(Some(&new_trash)), Ok(vec![todo(1, Some("NOW"))]));
    assert!(new_trash.contains("\"trashedAt\": \"NOW\""));
}

#[test]
fn trash_command_reports_errors_in_reading_order() {
    assert_eq!(
        trash_todo_item(Some("{}"), Some("oops"), 5, "NOW".to_string()),
        Err(malformed("todos.json", "expected an array of records"))
    );
    assert_eq!(
        trash_todo_item(Some("[]"), Some("{}"), 5, "NOW".to_string()),
        Err(malformed("trash.json", "expected an array of records"))
    );
    assert_eq!(
        trash_todo_item(None, None, 5, "NOW".to_string()),
        Err(StoreError::NotFound { id: 5, collection: Collection::Todos })
    );
}

#[test]
fn empty_trash_bin_is_idempotent() {
    let first = empty_trash_bin();
    let second = empty_trash_bin();
    assert_eq!(first, "[]");
    assert_eq!(second, "[]");
    assert_eq!(load_trash(Some(&first)), Ok(vec![]));
    assert_eq!(load_trash(Some(&second)), Ok(vec![]));
}
