//! Tasks: the records of the active collection and of the trash.

use crate::category::{Category, CategoryView};
use crate::json::{entry_values, find, lemma_object_view, lookup, Json, JsonValue};
use crate::record::{
    as_bool, as_number, as_optional_text, as_text, lemma_lookup_push, lemma_lookup_with_optional,
    read_bool, read_number, read_optional_text, read_text, with_optional, Record,
};
use vstd::prelude::*;

verus! {

/// A unit of work.
///
/// `category` is a copy of the category as it was when it was assigned.
/// `position` is the caller's display rank; the store never orders by it.
/// `trashed_at` is present exactly while the task lies in the trash.
#[derive(Debug, Clone, PartialEq, Eq)]
pub struct Task {
    pub id: u64,
    pub text: String,
    pub completed: bool,
    pub created_at: String,
    pub due_date: Option<String>,
    pub category: Option<Category>,
    pub position: u64,
    pub trashed_at: Option<String>,
}

/// The mathematical value of a [`Task`].
pub ghost struct TaskView {
    pub id: u64,
    pub text: Seq<char>,
    pub completed: bool,
    pub created_at: Seq<char>,
    pub due_date: Option<Seq<char>>,
    pub category: Option<CategoryView>,
    pub position: u64,
    pub trashed_at: Option<Seq<char>>,
}

/// The value of an optional string.
pub open spec fn text_view(text: Option<String>) -> Option<Seq<char>> {
    match text {
        Some(s) => Some(s@),
        None => None,
    }
}

/// The value of an optional category.
pub open spec fn category_view(category: Option<Category>) -> Option<CategoryView> {
    match category {
        Some(c) => Some(c@),
        None => None,
    }
}

impl View for Task {
    type V = TaskView;

    open spec fn view(&self) -> TaskView {
        TaskView {
            id: self.id,
            text: self.text@,
            completed: self.completed,
            created_at: self.created_at@,
            due_date: text_view(self.due_date),
            category: category_view(self.category),
            position: self.position,
            trashed_at: text_view(self.trashed_at),
        }
    }
}

/// An optional string as an optional JSON value.
pub open spec fn text_value(text: Option<Seq<char>>) -> Option<JsonValue> {
    match text {
        Some(s) => Some(JsonValue::Text(s)),
        None => None,
    }
}

/// An optional category as an optional JSON value.
pub open spec fn category_value(category: Option<CategoryView>) -> Option<JsonValue> {
    match category {
        Some(c) => Some(Category::json_of(c)),
        None => None,
    }
}

/// An optional embedded category: a missing entry and `null` both read as
/// absent; anything else must have a category's shape.
pub open spec fn as_optional_category(value: Option<JsonValue>) -> Option<Option<CategoryView>> {
    match value {
        None => Some(None),
        Some(JsonValue::Null) => Some(None),
        Some(other) => match Category::of_json(other) {
            Some(c) => Some(Some(c)),
            None => None,
        },
    }
}

/// The entries of the object written for a task, in this order: `id`, `text`,
/// `completed`, `created_at`, `due_date` if there is one, `category` if there
/// is one, `position`, and `trashedAt` if the task is trashed.
pub open spec fn task_entries(t: TaskView) -> Seq<(Seq<char>, JsonValue)> {
    with_optional(
        with_optional(
            with_optional(
                seq![
                    ("id"@, JsonValue::Number(Some(t.id))),
                    ("text"@, JsonValue::Text(t.text)),
                    ("completed"@, JsonValue::Bool(t.completed)),
                    ("created_at"@, JsonValue::Text(t.created_at)),
                ],
                "due_date"@,
                text_value(t.due_date),
            ),
            "category"@,
            category_value(t.category),
        ).push(("position"@, JsonValue::Number(Some(t.position)))),
        "trashedAt"@,
        text_value(t.trashed_at),
    )
}

/// The task that an object with these entries stands for.
pub open spec fn task_of_entries(entries: Seq<(Seq<char>, JsonValue)>) -> Option<TaskView> {
    let id = as_number(lookup(entries, "id"@));
    let text = as_text(lookup(entries, "text"@));
    let completed = as_bool(lookup(entries, "completed"@));
    let created_at = as_text(lookup(entries, "created_at"@));
    let due_date = as_optional_text(lookup(entries, "due_date"@));
    let category = as_optional_category(lookup(entries, "category"@));
    let position = as_number(lookup(entries, "position"@));
    let trashed_at = as_optional_text(lookup(entries, "trashedAt"@));
    if id is Some && text is Some && completed is Some && created_at is Some && due_date is Some
        && category is Some && position is Some && trashed_at is Some {
        Some(
            TaskView {
                id: id->0,
                text: text->0,
                completed: completed->0,
                created_at: created_at->0,
                due_date: due_date->0,
                category: category->0,
                position: position->0,
                trashed_at: trashed_at->0,
            },
        )
    } else {
        None
    }
}

/// Reads the optional embedded category under `key`.
fn read_optional_category(entries: &Vec<(String, Json)>, key: &str) -> (c: Option<Option<Category>>)
    ensures
        match c {
            Some(found) => as_optional_category(lookup(entry_values(entries@), key@)) == Some(
                category_view(found),
            ),
            None => as_optional_category(lookup(entry_values(entries@), key@)) is None,
        },
{
    match find(entries, key) {
        None => Some(None),
        Some(Json::Null) => Some(None),
        Some(other) => match Category::from_json(other) {
            Some(c) => Some(Some(c)),
            None => None,
        },
    }
}

impl Record for Task {
    open spec fn json_of(model: TaskView) -> JsonValue {
        JsonValue::Object(task_entries(model))
    }

    open spec fn of_json(doc: JsonValue) -> Option<TaskView> {
        match doc {
            JsonValue::Object(entries) => task_of_entries(entries),
            _ => None,
        }
    }

    fn to_json(&self) -> (doc: Json) {
        let mut entries: Vec<(String, Json)> = Vec::new();
        entries.push((String::from_str("id"), Json::Number(Some(self.id))));
        entries.push((String::from_str("text"), Json::Text(self.text.clone())));
        entries.push((String::from_str("completed"), Json::Bool(self.completed)));
        entries.push((String::from_str("created_at"), Json::Text(self.created_at.clone())));
        if let Some(due) = &self.due_date {
            entries.push((String::from_str("due_date"), Json::Text(due.clone())));
        }
        if let Some(category) = &self.category {
            entries.push((String::from_str("category"), category.to_json()));
        }
        entries.push((String::from_str("position"), Json::Number(Some(self.position))));
        if let Some(at) = &self.trashed_at {
            entries.push((String::from_str("trashedAt"), Json::Text(at.clone())));
        }
        proof {
            lemma_object_view(entries);
            assert(entry_values(entries@) =~= task_entries(self@));
        }
        Json::Object(entries)
    }

    fn from_json(doc: &Json) -> (record: Option<Task>) {
        match doc {
            Json::Object(entries) => {
                proof {
                    lemma_object_view(*entries);
                }
                let id = read_number(entries, "id");
                let text = read_text(entries, "text");
                let completed = read_bool(entries, "completed");
                let created_at = read_text(entries, "created_at");
                let due_date = read_optional_text(entries, "due_date");
                let category = read_optional_category(entries, "category");
                let position = read_number(entries, "position");
                let trashed_at = read_optional_text(entries, "trashedAt");
                match (id, text, completed, created_at, due_date, category, position, trashed_at) {
                    (
                        Some(id),
                        Some(text),
                        Some(completed),
                        Some(created_at),
                        Some(due_date),
                        Some(category),
                        Some(position),
                        Some(trashed_at),
                    ) => Some(
                        Task {
                            id,
                            text,
                            completed,
                            created_at,
                            due_date,
                            category,
                            position,
                            trashed_at,
                        },
                    ),
                    _ => None,
                }
            },
            _ => None,
        }
    }

    proof fn lemma_read_written(model: TaskView) {
        lemma_task_keys();
        let id = JsonValue::Number(Some(model.id));
        let text = JsonValue::Text(model.text);
        let completed = JsonValue::Bool(model.completed);
        let created = JsonValue::Text(model.created_at);
        let due = text_value(model.due_date);
        let category = category_value(model.category);
        let position = JsonValue::Number(Some(model.position));
        let trashed = text_value(model.trashed_at);
        let e1 = Seq::empty().push(("id"@, id));
        let e2 = e1.push(("text"@, text));
        let e3 = e2.push(("completed"@, completed));
        let e4 = e3.push(("created_at"@, created));
        let e5 = with_optional(e4, "due_date"@, due);
        let e6 = with_optional(e5, "category"@, category);
        let e7 = e6.push(("position"@, position));
        let all = task_entries(model);
        assert(all == with_optional(e7, "trashedAt"@, trashed));
        assert forall|wanted: Seq<char>|
            wanted == "id"@ || wanted == "text"@ || wanted == "completed"@ || wanted
                == "created_at"@ || wanted == "due_date"@ || wanted == "category"@ || wanted
                == "position"@ || wanted == "trashedAt"@
            implies #[trigger] lookup(all, wanted) == (if wanted == "trashedAt"@ {
                trashed
            } else if wanted == "position"@ {
                Some(position)
            } else if wanted == "category"@ {
                category
            } else if wanted == "due_date"@ {
                due
            } else if wanted == "created_at"@ {
                Some(created)
            } else if wanted == "completed"@ {
                Some(completed)
            } else if wanted == "text"@ {
                Some(text)
            } else {
                Some(id)
            }) by {
            lemma_lookup_with_optional(e7, "trashedAt"@, trashed, wanted);
            lemma_lookup_push(e6, "position"@, position, wanted);
            lemma_lookup_with_optional(e5, "category"@, category, wanted);
            lemma_lookup_with_optional(e4, "due_date"@, due, wanted);
            lemma_lookup_push(e3, "created_at"@, created, wanted);
            lemma_lookup_push(e2, "completed"@, completed, wanted);
            lemma_lookup_push(e1, "text"@, text, wanted);
            lemma_lookup_push(Seq::empty(), "id"@, id, wanted);
        }
        if let Some(c) = model.category {
            Category::lemma_read_written(c);
        }
    }
}

/// The eight keys of a task's object are pairwise different: they differ in
/// length or in their first character.
pub proof fn lemma_task_keys()
    ensures
        "id"@.len() == 2,
        "text"@.len() == 4,
        "completed"@.len() == 9 && "completed"@[0] == 'c',
        "created_at"@.len() == 10,
        "due_date"@.len() == 8 && "due_date"@[0] == 'd',
        "category"@.len() == 8 && "category"@[0] == 'c',
        "position"@.len() == 8 && "position"@[0] == 'p',
        "trashedAt"@.len() == 9 && "trashedAt"@[0] == 't',
{
    reveal_strlit("id");
    reveal_strlit("text");
    reveal_strlit("completed");
    reveal_strlit("created_at");
    reveal_strlit("due_date");
    reveal_strlit("category");
    reveal_strlit("position");
    reveal_strlit("trashedAt");
}

} // verus!
