//! Categories: labels with an optional parent.

use crate::json::{entry_values, lemma_object_view, lookup, Json, JsonValue};
use crate::record::{
    as_number, as_optional_number, as_text, lemma_lookup_push, lemma_lookup_with_optional,
    read_number, read_optional_number, read_text, with_optional, Record,
};
use vstd::prelude::*;

verus! {

/// A label that tasks can carry. `parent_id` names another category; the
/// store does not check that it exists.
#[derive(Debug, Clone, PartialEq, Eq)]
pub struct Category {
    pub id: u64,
    pub name: String,
    pub color: String,
    pub parent_id: Option<u64>,
}

/// The mathematical value of a [`Category`].
pub ghost struct CategoryView {
    pub id: u64,
    pub name: Seq<char>,
    pub color: Seq<char>,
    pub parent_id: Option<u64>,
}

impl View for Category {
    type V = CategoryView;

    open spec fn view(&self) -> CategoryView {
        CategoryView { id: self.id, name: self.name@, color: self.color@, parent_id: self.parent_id }
    }
}

/// An optional number as an optional JSON value.
pub open spec fn number_value(n: Option<u64>) -> Option<JsonValue> {
    match n {
        Some(n) => Some(JsonValue::Number(Some(n))),
        None => None,
    }
}

/// The entries of the object written for a category: `id`, `name`, `color`,
/// then `parent_id` if there is one.
pub open spec fn category_entries(c: CategoryView) -> Seq<(Seq<char>, JsonValue)> {
    with_optional(
        seq![
            ("id"@, JsonValue::Number(Some(c.id))),
            ("name"@, JsonValue::Text(c.name)),
            ("color"@, JsonValue::Text(c.color)),
        ],
        "parent_id"@,
        number_value(c.parent_id),
    )
}

/// The category that an object with these entries stands for.
pub open spec fn category_of_entries(entries: Seq<(Seq<char>, JsonValue)>) -> Option<CategoryView> {
    let id = as_number(lookup(entries, "id"@));
    let name = as_text(lookup(entries, "name"@));
    let color = as_text(lookup(entries, "color"@));
    let parent_id = as_optional_number(lookup(entries, "parent_id"@));
    if id is Some && name is Some && color is Some && parent_id is Some {
        Some(CategoryView { id: id->0, name: name->0, color: color->0, parent_id: parent_id->0 })
    } else {
        None
    }
}

impl Record for Category {
    open spec fn json_of(model: CategoryView) -> JsonValue {
        JsonValue::Object(category_entries(model))
    }

    open spec fn of_json(doc: JsonValue) -> Option<CategoryView> {
        match doc {
            JsonValue::Object(entries) => category_of_entries(entries),
            _ => None,
        }
    }

    fn to_json(&self) -> (doc: Json) {
        let mut entries: Vec<(String, Json)> = Vec::new();
        entries.push((String::from_str("id"), Json::Number(Some(self.id))));
        entries.push((String::from_str("name"), Json::Text(self.name.clone())));
        entries.push((String::from_str("color"), Json::Text(self.color.clone())));
        if let Some(parent) = self.parent_id {
            entries.push((String::from_str("parent_id"), Json::Number(Some(parent))));
        }
        proof {
            lemma_object_view(entries);
            assert(entry_values(entries@) =~= category_entries(self@));
        }
        Json::Object(entries)
    }

    fn from_json(doc: &Json) -> (record: Option<Category>) {
        match doc {
            Json::Object(entries) => {
                proof {
                    lemma_object_view(*entries);
                }
                let id = read_number(entries, "id");
                let name = read_text(entries, "name");
                let color = read_text(entries, "color");
                let parent_id = read_optional_number(entries, "parent_id");
                match (id, name, color, parent_id) {
                    (Some(id), Some(name), Some(color), Some(parent_id)) => Some(
                        Category { id, name, color, parent_id },
                    ),
                    _ => None,
                }
            },
            _ => None,
        }
    }

    proof fn lemma_read_written(model: CategoryView) {
        lemma_category_keys();
        let id = JsonValue::Number(Some(model.id));
        let name = JsonValue::Text(model.name);
        let color = JsonValue::Text(model.color);
        let parent = number_value(model.parent_id);
        let first = Seq::empty().push(("id"@, id));
        let second = first.push(("name"@, name));
        let third = second.push(("color"@, color));
        assert(third =~= seq![("id"@, id), ("name"@, name), ("color"@, color)]);
        let all = category_entries(model);
        assert forall|wanted: Seq<char>|
            wanted == "id"@ || wanted == "name"@ || wanted == "color"@ || wanted == "parent_id"@
            implies #[trigger] lookup(all, wanted) == (if wanted == "parent_id"@ {
                parent
            } else if wanted == "color"@ {
                Some(color)
            } else if wanted == "name"@ {
                Some(name)
            } else {
                Some(id)
            }) by {
            lemma_lookup_with_optional(third, "parent_id"@, parent, wanted);
            lemma_lookup_push(second, "color"@, color, wanted);
            lemma_lookup_push(first, "name"@, name, wanted);
            lemma_lookup_push(Seq::empty(), "id"@, id, wanted);
        }
    }
}

/// The four keys of a category's object differ in length.
pub proof fn lemma_category_keys()
    ensures
        "id"@.len() == 2,
        "name"@.len() == 4,
        "color"@.len() == 5,
        "parent_id"@.len() == 9,
{
    reveal_strlit("id");
    reveal_strlit("name");
    reveal_strlit("color");
    reveal_strlit("parent_id");
}

} // verus!
