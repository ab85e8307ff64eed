use task_store::category::Category;
use task_store::codec::{
    decode, decode_document, describe_mismatch, encode, is_blank, is_white_space,
    records_from_json, records_to_json, Mismatch, COMPACT_FROM,
};
use task_store::error::StoreError;
use task_store::json::{find, Json};
use task_store::record::{
    read_bool, read_number, read_optional_number, read_optional_text, read_text, Record,
};
use task_store::task::Task;

fn plain_task(id: u64) -> Task {
    Task {
        id,
        text: format!("task {}", id),
        completed: id % 2 == 0,
        created_at: "2024-05-01T10:00:00.000Z".to_string(),
        due_date: None,
        category: None,
        position: id,
        trashed_at: None,
    }
}

fn full_task(id: u64) -> Task {
    Task {
        id,
        text: "write \"report\"\n\tfor Zoë — 100% ✓".to_string(),
        completed: true,
        created_at: "2024-05-01T10:00:00.000Z".to_string(),
        due_date: Some("2024-06-01T00:00:00.000Z".to_string()),
        category: Some(Category {
            id: 7,
            name: "Work".to_string(),
            color: "#ff0000".to_string(),
            parent_id: Some(3),
        }),
        position: 4,
        trashed_at: Some("2024-05-02T08:30:00.000Z".to_string()),
    }
}

fn malformed(file: &str, diagnostic: &str) -> StoreError {
    StoreError::MalformedDocument { file: file.to_string(), diagnostic: diagnostic.to_string() }
}

#[test]
fn white_space_is_what_std_calls_white_space() {
    let mut code: u32 = 0;
    while code <= 0x10FFFF {
        if let Some(c) = char::from_u32(code) {
            assert_eq!(is_white_space(c), c.is_whitespace(), "code point {:#x}", code);
        }
        code += 1;
    }
}

#[test]
fn blank_texts() {
    assert!(is_blank(""));
    assert!(is_blank(" "));
    assert!(is_blank(" \t\r\n"));
    assert!(is_blank("\u{00A0}\u{2003}\u{3000}"));
    assert!(!is_blank("[]"));
    assert!(!is_blank("  x  "));
    assert!(!is_blank("\u{200B}"));
}

#[test]
fn blank_text_decodes_to_no_records() {
    assert_eq!(decode::<Task>("todos.json", ""), Ok(vec![]));
    assert_eq!(decode::<Task>("todos.json", "  \n\t "), Ok(vec![]));
    assert_eq!(decode::<Category>("categories.json", "\n"), Ok(vec![]));
}

#[test]
fn empty_array_decodes_to_no_records() {
    assert_eq!(decode::<Task>("todos.json", "[]"), Ok(vec![]));
    assert_eq!(decode::<Task>("todos.json", " [ ] \n"), Ok(vec![]));
}

#[test]
fn small_collection_is_written_indented() {
    let text = encode(&vec![plain_task(1)]);
    let expected = "[\n  {\n    \"id\": 1,\n    \"text\": \"task 1\",\n    \"completed\": false,\n    \"created_at\": \"2024-05-01T10:00:00.000Z\",\n    \"position\": 1\n  }\n]";
    assert_eq!(text, expected);
}

#[test]
fn empty_collection_is_written_as_empty_array() {
    assert_eq!(encode::<Task>(&vec![]), "[]");
    assert_eq!(encode::<Category>(&vec![]), "[]");
}

#[test]
fn present_optional_fields_are_written_in_order() {
    let text = encode(&vec![full_task(9)]);
    let expected = "[\n  {\n    \"id\": 9,\n    \"text\": \"write \\\"report\\\"\\n\\tfor Zoë — 100% ✓\",\n    \"completed\": true,\n    \"created_at\": \"2024-05-01T10:00:00.000Z\",\n    \"due_date\": \"2024-06-01T00:00:00.000Z\",\n    \"category\": {\n      \"id\": 7,\n      \"name\": \"Work\",\n      \"color\": \"#ff0000\",\n      \"parent_id\": 3\n    },\n    \"position\": 4,\n    \"trashedAt\": \"2024-05-02T08:30:00.000Z\"\n  }\n]";
    assert_eq!(text, expected);
}

#[test]
fn absent_optional_fields_are_left_out() {
    let text = encode(&vec![plain_task(1)]);
    assert!(!text.contains("trashedAt"));
    assert!(!text.contains("due_date"));
    assert!(!text.contains("category"));
    assert!(!text.contains("null"));
    let category = Category { id: 1, name: "n".to_string(), color: "c".to_string(), parent_id: None };
    let text = encode(&vec![category]);
    assert_eq!(text, "[\n  {\n    \"id\": 1,\n    \"name\": \"n\",\n    \"color\": \"c\"\n  }\n]");
}

#[test]
fn threshold_chooses_the_layout() {
    assert_eq!(COMPACT_FROM, 100);
    let below: Vec<Task> = (0..99).map(plain_task).collect();
    let at: Vec<Task> = (0..100).map(plain_task).collect();
    let pretty = encode(&below);
    let compact = encode(&at);
    assert!(pretty.starts_with("[\n  {\n    \"id\": 0,"));
    assert!(pretty.contains('\n'));
    assert!(compact.starts_with("[{\"id\":0,\"text\":\"task 0\",\"completed\":true,"));
    assert!(!compact.contains('\n'));
}

#[test]
fn compact_text_of_one_hundred_records_is_exact_at_its_start() {
    let at: Vec<Task> = (0..100).map(plain_task).collect();
    let compact = encode(&at);
    let first = "{\"id\":0,\"text\":\"task 0\",\"completed\":true,\"created_at\":\"2024-05-01T10:00:00.000Z\",\"position\":0}";
    assert!(compact.starts_with(&format!("[{},", first)));
    assert!(compact.ends_with("\"position\":99}]"));
}

#[test]
fn tasks_round_trip_in_both_layouts() {
    for count in [0u64, 1, 2, 99, 100, 101, 150] {
        let mut items: Vec<Task> = (0..count).map(plain_task).collect();
        if count > 1 {
            items[1] = full_task(1);
        }
        let text = encode(&items);
        assert_eq!(decode::<Task>("todos.json", &text), Ok(items));
    }
}

#[test]
fn categories_round_trip_in_both_layouts() {
    for count in [0u64, 1, 99, 100, 250] {
        let items: Vec<Category> = (0..count)
            .map(|id| Category {
                id,
                name: format!("name {}", id),
                color: "#00ff00".to_string(),
                parent_id: if id % 3 == 0 { None } else { Some(id - 1) },
            })
            .collect();
        let text = encode(&items);
        assert_eq!(decode::<Category>("categories.json", &text), Ok(items));
    }
}

#[test]
fn extreme_numbers_round_trip() {
    let mut task = plain_task(u64::MAX);
    task.position = u64::MAX;
    let text = encode(&vec![task.clone()]);
    assert!(text.contains("18446744073709551615"));
    assert_eq!(decode::<Task>("todos.json", &text), Ok(vec![task]));
}

#[test]
fn records_round_trip_as_json_values() {
    let task = full_task(3);
    assert_eq!(Task::from_json(&task.to_json()), Some(task));
    let task = plain_task(4);
    assert_eq!(Task::from_json(&task.to_json()), Some(task));
    let category = Category { id: 1, name: "a".to_string(), color: "b".to_string(), parent_id: None };
    assert_eq!(Category::from_json(&category.to_json()), Some(category));
    let items = vec![plain_task(1), full_task(2)];
    assert_eq!(records_from_json::<Task>(&records_to_json(&items)), Ok(items));
}

#[test]
fn task_is_written_as_object_with_its_keys() {
    let doc = plain_task(5).to_json();
    let expected = Json::Object(vec![
        ("id".to_string(), Json::Number(Some(5))),
        ("text".to_string(), Json::Text("task 5".to_string())),
        ("completed".to_string(), Json::Bool(false)),
        ("created_at".to_string(), Json::Text("2024-05-01T10:00:00.000Z".to_string())),
        ("position".to_string(), Json::Number(Some(5))),
    ]);
    assert_eq!(doc, expected);
}

#[test]
fn null_and_missing_optional_fields_read_as_absent() {
    let text = r#"[{"id":1,"text":"a","completed":false,"created_at":"t","due_date":null,"category":null,"position":0,"trashedAt":null}]"#;
    let expected = Task {
        id: 1,
        text: "a".to_string(),
        completed: false,
        created_at: "t".to_string(),
        due_date: None,
        category: None,
        position: 0,
        trashed_at: None,
    };
    assert_eq!(decode::<Task>("todos.json", text), Ok(vec![expected.clone()]));
    let text = r#"[{"id":1,"text":"a","completed":false,"created_at":"t","position":0}]"#;
    assert_eq!(decode::<Task>("todos.json", text), Ok(vec![expected]));
    let text = r#"[{"id":2,"name":"n","color":"c","parent_id":null}]"#;
    let expected = Category { id: 2, name: "n".to_string(), color: "c".to_string(), parent_id: None };
    assert_eq!(decode::<Category>("categories.json", text), Ok(vec![expected]));
}

#[test]
fn unknown_keys_are_ignored_and_key_order_is_free() {
    let text = r#"[{"position":3,"extra":[1,{"deep":true}],"completed":true,"text":"a","created_at":"t","id":1}]"#;
    let expected = Task {
        id: 1,
        text: "a".to_string(),
        completed: true,
        created_at: "t".to_string(),
        due_date: None,
        category: None,
        position: 3,
        trashed_at: None,
    };
    assert_eq!(decode::<Task>("todos.json", text), Ok(vec![expected]));
}

#[test]
fn trash_mark_is_read_from_its_external_key() {
    let text = r#"[{"id":1,"text":"a","completed":false,"created_at":"t","position":0,"trashedAt":"T","trashed_at":"ignored"}]"#;
    let decoded = decode::<Task>("trash.json", text).unwrap();
    assert_eq!(decoded[0].trashed_at, Some("T".to_string()));
}

#[test]
fn invalid_json_is_a_malformed_document() {
    assert_eq!(
        decode::<Task>("todos.json", "[1, 2"),
        Err(malformed("todos.json", "EOF while parsing a list at line 1 column 5"))
    );
    assert_eq!(
        decode::<Task>("trash.json", "not json"),
        Err(malformed("trash.json", "expected ident at line 1 column 2"))
    );
    assert_eq!(
        decode::<Category>("categories.json", "[] []"),
        Err(malformed("categories.json", "trailing characters at line 1 column 4"))
    );
}

#[test]
fn document_that_is_no_array_is_malformed() {
    assert_eq!(
        decode::<Task>("todos.json", "{}"),
        Err(malformed("todos.json", "expected an array of records"))
    );
    assert_eq!(
        decode::<Task>("todos.json", "null"),
        Err(malformed("todos.json", "expected an array of records"))
    );
    assert_eq!(
        decode::<Category>("categories.json", "7"),
        Err(malformed("categories.json", "expected an array of records"))
    );
}

#[test]
fn first_record_of_wrong_shape_is_named() {
    let good = r#"{"id":1,"text":"a","completed":false,"created_at":"t","position":0}"#;
    let missing_id = r#"{"text":"a","completed":false,"created_at":"t","position":0}"#;
    let negative_id = r#"{"id":-1,"text":"a","completed":false,"created_at":"t","position":0}"#;
    let fractional = r#"{"id":1.5,"text":"a","completed":false,"created_at":"t","position":0}"#;
    let too_large = r#"{"id":18446744073709551616,"text":"a","completed":false,"created_at":"t","position":0}"#;
    let text_number = r#"{"id":1,"text":5,"completed":false,"created_at":"t","position":0}"#;
    let bad_due = r#"{"id":1,"text":"a","completed":false,"created_at":"t","position":0,"due_date":5}"#;
    let bad_category = r#"{"id":1,"text":"a","completed":false,"created_at":"t","position":0,"category":{"id":1}}"#;
    let not_object = r#"[1,"a",false,"t",null,null,0,null]"#;
    for bad in [
        missing_id,
        negative_id,
        fractional,
        too_large,
        text_number,
        bad_due,
        bad_category,
        not_object,
        "3",
        "null",
    ] {
        let text = format!("[{},{},{}]", good, bad, missing_id);
        assert_eq!(
            decode::<Task>("todos.json", &text),
            Err(malformed("todos.json", "record 1 does not have the expected shape")),
            "{}",
            bad
        );
    }
}

#[test]
fn mismatch_descriptions() {
    assert_eq!(describe_mismatch(Mismatch::NotAnArray), "expected an array of records");
    assert_eq!(describe_mismatch(Mismatch::Record(0)), "record 0 does not have the expected shape");
    assert_eq!(
        describe_mismatch(Mismatch::Record(1234567)),
        "record 1234567 does not have the expected shape"
    );
}

#[test]
fn records_from_json_reports_the_mismatch() {
    assert_eq!(records_from_json::<Task>(&Json::Null), Err(Mismatch::NotAnArray));
    assert_eq!(records_from_json::<Task>(&Json::Object(vec![])), Err(Mismatch::NotAnArray));
    assert_eq!(records_from_json::<Task>(&Json::Array(vec![])), Ok(vec![]));
    let doc = Json::Array(vec![plain_task(1).to_json(), Json::Null, Json::Bool(true)]);
    assert_eq!(records_from_json::<Task>(&doc), Err(Mismatch::Record(1)));
}

#[test]
fn decode_document_maps_both_failures() {
    assert_eq!(
        decode_document::<Task>("todos.json", Err("boom".to_string())),
        Err(malformed("todos.json", "boom"))
    );
    assert_eq!(
        decode_document::<Task>("todos.json", Ok(Json::Bool(true))),
        Err(malformed("todos.json", "expected an array of records"))
    );
    assert_eq!(
        decode_document::<Task>("todos.json", Ok(Json::Array(vec![plain_task(2).to_json()]))),
        Ok(vec![plain_task(2)])
    );
}

#[test]
fn last_entry_with_a_key_counts() {
    let entries = vec![
        ("a".to_string(), Json::Number(Some(1))),
        ("b".to_string(), Json::Bool(true)),
        ("a".to_string(), Json::Number(Some(2))),
    ];
    assert_eq!(find(&entries, "a"), Some(&Json::Number(Some(2))));
    assert_eq!(find(&entries, "b"), Some(&Json::Bool(true)));
    assert_eq!(find(&entries, "c"), None);
    assert_eq!(find(&vec![], "a"), None);
    assert_eq!(read_number(&entries, "a"), Some(2));
    let text = r#"[{"id":1,"id":2,"name":"n","color":"c"}]"#;
    let decoded = decode::<Category>("categories.json", text).unwrap();
    assert_eq!(decoded[0].id, 2);
}

#[test]
fn typed_field_readers() {
    let entries = vec![
        ("n".to_string(), Json::Number(Some(5))),
        ("inexact".to_string(), Json::Number(None)),
        ("s".to_string(), Json::Text("x".to_string())),
        ("b".to_string(), Json::Bool(false)),
        ("z".to_string(), Json::Null),
        ("l".to_string(), Json::Array(vec![])),
    ];
    assert_eq!(read_number(&entries, "n"), Some(5));
    assert_eq!(read_number(&entries, "inexact"), None);
    assert_eq!(read_number(&entries, "s"), None);
    assert_eq!(read_number(&entries, "missing"), None);
    assert_eq!(read_text(&entries, "s"), Some("x".to_string()));
    assert_eq!(read_text(&entries, "n"), None);
    assert_eq!(read_text(&entries, "z"), None);
    assert_eq!(read_bool(&entries, "b"), Some(false));
    assert_eq!(read_bool(&entries, "n"), None);
    assert_eq!(read_optional_number(&entries, "n"), Some(Some(5)));
    assert_eq!(read_optional_number(&entries, "z"), Some(None));
    assert_eq!(read_optional_number(&entries, "missing"), Some(None));
    assert_eq!(read_optional_number(&entries, "inexact"), None);
    assert_eq!(read_optional_number(&entries, "s"), None);
    assert_eq!(read_optional_text(&entries, "s"), Some(Some("x".to_string())));
    assert_eq!(read_optional_text(&entries, "z"), Some(None));
    assert_eq!(read_optional_text(&entries, "missing"), Some(None));
    assert_eq!(read_optional_text(&entries, "l"), None);
}

#[test]
fn deeply_nested_document_is_rejected_not_crashed() {
    let text = format!("{}{}", "[".repeat(200), "]".repeat(200));
    match decode::<Task>("todos.json", &text) {
        Err(StoreError::MalformedDocument { file, diagnostic }) => {
            assert_eq!(file, "todos.json");
            assert!(diagnostic.starts_with("recursion limit exceeded"));
        },
        other => panic!("unexpected outcome: {:?}", other),
    }
}
