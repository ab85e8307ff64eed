//! The store's commands, as functions from the contents of the collections'
//! files to records and to the files' new contents.
//!
//! The caller reads the files and writes them; a file that does not exist
//! is handed in as `None`.

use crate::category::Category;
use crate::codec::{decode, decoded, encode, encoded, records_view, views};
use crate::error::{Collection, StoreError, StoreErrorView};
use crate::lifecycle::{
    find_by_id, holds, index_of, lemma_index_of, permanently_delete, purged, restore, restored,
    trash_item, trashed, unmarked,
};
use crate::record::Record;
use crate::task::{Task, TaskView};
use vstd::prelude::*;

verus! {

/// The value of a file's contents.
pub open spec fn contents_view(contents: Option<&str>) -> Option<Seq<char>> {
    match contents {
        Some(text) => Some(text@),
        None => None,
    }
}

/// The records of a collection, given its file's contents: none if the file
/// does not exist; otherwise what the text decodes to.
pub open spec fn loaded<T: Record>(file: Seq<char>, contents: Option<Seq<char>>) -> Result<
    Seq<T::V>,
    StoreErrorView,
> {
    match contents {
        None => Ok(Seq::empty()),
        Some(text) => decoded::<T>(file, text),
    }
}

/// Loads a collection from the contents of its file.
pub fn read_data<T: Record>(file: &str, contents: Option<&str>) -> (records: Result<
    Vec<T>,
    StoreError,
>)
    ensures
        records_view(records) == loaded::<T>(file@, contents_view(contents)),
        contents is None ==> records is Ok && records->Ok_0@.len() == 0,
{
    match contents {
        None => {
            let items: Vec<T> = Vec::new();
            assert(views(items@) =~= Seq::<T::V>::empty());
            Ok(items)
        },
        Some(text) => decode::<T>(file, text),
    }
}

/// The new contents of a collection's file: the whole collection, encoded.
pub fn write_data<T: Record>(items: &Vec<T>) -> (text: String)
    ensures
        text@ == encoded::<T>(views(items@)),
{
    encode::<T>(items)
}

/// Loads the active tasks from the contents of `todos.json`.
pub fn load_todos(contents: Option<&str>) -> (todos: Result<Vec<Task>, StoreError>)
    ensures
        records_view(todos) == loaded::<Task>(Collection::Todos.file(), contents_view(contents)),
        contents is None ==> todos is Ok && todos->Ok_0@.len() == 0,
{
    read_data::<Task>(Collection::Todos.file_name(), contents)
}

/// The new contents of `todos.json` for the given active tasks.
pub fn save_todos(todos: &Vec<Task>) -> (text: String)
    ensures
        text@ == encoded::<Task>(views(todos@)),
{
    write_data::<Task>(todos)
}

/// Loads the trash from the contents of `trash.json`.
pub fn load_trash(contents: Option<&str>) -> (trash: Result<Vec<Task>, StoreError>)
    ensures
        records_view(trash) == loaded::<Task>(Collection::Trash.file(), contents_view(contents)),
        contents is None ==> trash is Ok && trash->Ok_0@.len() == 0,
{
    read_data::<Task>(Collection::Trash.file_name(), contents)
}

/// The new contents of `trash.json` for the given trashed tasks.
pub fn save_trash(todos: &Vec<Task>) -> (text: String)
    ensures
        text@ == encoded::<Task>(views(todos@)),
{
    write_data::<Task>(todos)
}

/// Loads the categories from the contents of `categories.json`.
pub fn load_categories(contents: Option<&str>) -> (categories: Result<Vec<Category>, StoreError>)
    ensures
        records_view(categories) == loaded::<Category>(
            Collection::Categories.file(),
            contents_view(contents),
        ),
        contents is None ==> categories is Ok && categories->Ok_0@.len() == 0,
{
    read_data::<Category>(Collection::Categories.file_name(), contents)
}

/// The new contents of `categories.json` for the given categories.
pub fn save_categories(categories: &Vec<Category>) -> (text: String)
    ensures
        text@ == encoded::<Category>(views(categories@)),
{
    write_data::<Category>(categories)
}

/// Loads the trash from the contents of `trash.json`; the same as
/// [`load_trash`].
pub fn get_trash_data(contents: Option<&str>) -> (trash: Result<Vec<Task>, StoreError>)
    ensures
        records_view(trash) == loaded::<Task>(Collection::Trash.file(), contents_view(contents)),
        contents is None ==> trash is Ok && trash->Ok_0@.len() == 0,
{
    read_data::<Task>(Collection::Trash.file_name(), contents)
}

/// The new contents of `trash.json` after the first task with the id was
/// deleted from it for good; the error if the file cannot be decoded or
/// holds no task with the id.
pub open spec fn deleted_document(trash_doc: Option<Seq<char>>, id: u64) -> Result<
    Seq<char>,
    StoreErrorView,
> {
    match loaded::<Task>(Collection::Trash.file(), trash_doc) {
        Err(error) => Err(error),
        Ok(trash) => match purged(trash, id) {
            None => Err(StoreErrorView::NotFound { id, collection: Collection::Trash }),
            Some(rest) => Ok(encoded::<Task>(rest)),
        },
    }
}

/// The value of a command's outcome that is one file's new contents.
pub open spec fn document_view(outcome: Result<String, StoreError>) -> Result<
    Seq<char>,
    StoreErrorView,
> {
    match outcome {
        Ok(text) => Ok(text@),
        Err(error) => Err(error@),
    }
}

/// The value of a command's outcome that is two files' new contents.
pub open spec fn documents_view(outcome: Result<(String, String), StoreError>) -> Result<
    (Seq<char>, Seq<char>),
    StoreErrorView,
> {
    match outcome {
        Ok((first, second)) => Ok((first@, second@)),
        Err(error) => Err(error@),
    }
}

/// Deletes the first task with the id from the trash for good: from the contents
/// of `trash.json` to its new contents. On an error nothing is to be
/// written.
pub fn delete_todo_item_permanently(trash_doc: Option<&str>, id: u64) -> (outcome: Result<
    String,
    StoreError,
>)
    ensures
        document_view(outcome) == deleted_document(contents_view(trash_doc), id),
{
    let mut trash = match load_trash(trash_doc) {
        Ok(trash) => trash,
        Err(error) => {
            return Err(error);
        },
    };
    match permanently_delete(&mut trash, id) {
        Ok(()) => Ok(save_trash(&trash)),
        Err(error) => Err(error),
    }
}

/// The new contents of `trash.json` and of `todos.json`, in this order,
/// after the first task with the id was restored.
///
/// The trash comes first: if it cannot be decoded, that is the error; if it
/// holds no task with the id, the error is `NotFound`, whatever `todos.json`
/// holds. Only for a task that was found are the active tasks decoded.
pub open spec fn restored_documents(
    trash_doc: Option<Seq<char>>,
    todos_doc: Option<Seq<char>>,
    id: u64,
) -> Result<(Seq<char>, Seq<char>), StoreErrorView> {
    match loaded::<Task>(Collection::Trash.file(), trash_doc) {
        Err(error) => Err(error),
        Ok(trash) => if !holds(trash, id) {
            Err(StoreErrorView::NotFound { id, collection: Collection::Trash })
        } else {
            match loaded::<Task>(Collection::Todos.file(), todos_doc) {
                Err(error) => Err(error),
                Ok(todos) => Ok(
                    (
                        encoded::<Task>(trash.remove(index_of(trash, id))),
                        encoded::<Task>(todos.push(unmarked(trash[index_of(trash, id)]))),
                    ),
                ),
            }
        },
    }
}

/// Restores the first task with the id from the trash: from the contents of
/// `trash.json` and `todos.json` to their new contents, in this order. The
/// trash is decoded and searched before the active tasks are decoded. On an
/// error nothing is to be written.
pub fn restore_todo_item(trash_doc: Option<&str>, todos_doc: Option<&str>, id: u64) -> (outcome:
    Result<(String, String), StoreError>)
    ensures
        documents_view(outcome) == restored_documents(
            contents_view(trash_doc),
            contents_view(todos_doc),
            id,
        ),
{
    let mut trash = match load_trash(trash_doc) {
        Ok(trash) => trash,
        Err(error) => {
            return Err(error);
        },
    };
    proof {
        lemma_index_of(views(trash@), id);
    }
    if find_by_id(&trash, id).is_none() {
        return Err(StoreError::NotFound { id, collection: Collection::Trash });
    }
    let mut todos = match load_todos(todos_doc) {
        Ok(todos) => todos,
        Err(error) => {
            return Err(error);
        },
    };
    match restore(&mut trash, &mut todos, id) {
        Ok(()) => Ok((save_trash(&trash), save_todos(&todos))),
        Err(error) => Err(error),
    }
}

/// The new contents of `todos.json` and of `trash.json`, in this order,
/// after the first active task with the id was trashed at the time `at`;
/// the error if a file cannot be decoded (the active tasks are read first)
/// or no active task has the id.
pub open spec fn trashed_documents(
    todos_doc: Option<Seq<char>>,
    trash_doc: Option<Seq<char>>,
    id: u64,
    at: Seq<char>,
) -> Result<(Seq<char>, Seq<char>), StoreErrorView> {
    match loaded::<Task>(Collection::Todos.file(), todos_doc) {
        Err(error) => Err(error),
        Ok(todos) => match loaded::<Task>(Collection::Trash.file(), trash_doc) {
            Err(error) => Err(error),
            Ok(trash) => match trashed(todos, trash, id, at) {
                None => Err(StoreErrorView::NotFound { id, collection: Collection::Todos }),
                Some((rest, grown)) => Ok((encoded::<Task>(rest), encoded::<Task>(grown))),
            },
        },
    }
}

/// Moves the first active task with the id to the trash, marked with the
/// time `at`: from the contents of `todos.json` and `trash.json` to their
/// new contents, in this order. On an error nothing is to be written.
pub fn trash_todo_item(todos_doc: Option<&str>, trash_doc: Option<&str>, id: u64, at: String) -> (
    outcome: Result<(String, String), StoreError>)
    ensures
        documents_view(outcome) == trashed_documents(
            contents_view(todos_doc),
            contents_view(trash_doc),
            id,
            at@,
        ),
{
    let mut todos = match load_todos(todos_doc) {
        Ok(todos) => todos,
        Err(error) => {
            return Err(error);
        },
    };
    let mut trash = match load_trash(trash_doc) {
        Ok(trash) => trash,
        Err(error) => {
            return Err(error);
        },
    };
    match trash_item(&mut todos, &mut trash, id, at) {
        Ok(()) => Ok((save_todos(&todos), save_trash(&trash))),
        Err(error) => Err(error),
    }
}

/// The new contents of `trash.json` for an empty trash. It does not depend
/// on what the trash held.
pub fn empty_trash_bin() -> (text: String)
    ensures
        text@ == encoded::<Task>(Seq::<TaskView>::empty()),
{
    let empty_trash: Vec<Task> = Vec::new();
    assert(views(empty_trash@) =~= Seq::<TaskView>::empty());
    write_data::<Task>(&empty_trash)
}

/// Where the trash decodes and holds no task with the id, deleting and
/// restoring the id both fail with `NotFound`, whatever `todos.json` holds:
/// neither command gives new contents for any file.
pub proof fn lemma_absent_id_is_reported(
    trash_doc: Option<Seq<char>>,
    todos_doc: Option<Seq<char>>,
    id: u64,
)
    requires
        loaded::<Task>(Collection::Trash.file(), trash_doc) is Ok,
        !holds(loaded::<Task>(Collection::Trash.file(), trash_doc)->Ok_0, id),
    ensures
        deleted_document(trash_doc, id) == Err::<Seq<char>, StoreErrorView>(
            StoreErrorView::NotFound { id, collection: Collection::Trash },
        ),
        restored_documents(trash_doc, todos_doc, id) == Err::<
            (Seq<char>, Seq<char>),
            StoreErrorView,
        >(StoreErrorView::NotFound { id, collection: Collection::Trash }),
{
    lemma_index_of(loaded::<Task>(Collection::Trash.file(), trash_doc)->Ok_0, id);
}

/// Where both files decode, restoring through the files is restoring the
/// decoded collections: the new contents are the two collections that
/// `restored` gives, encoded.
pub proof fn lemma_restored_documents(
    trash_doc: Option<Seq<char>>,
    todos_doc: Option<Seq<char>>,
    id: u64,
)
    requires
        loaded::<Task>(Collection::Trash.file(), trash_doc) is Ok,
        loaded::<Task>(Collection::Todos.file(), todos_doc) is Ok,
    ensures
        restored_documents(trash_doc, todos_doc, id) == match restored(
            loaded::<Task>(Collection::Trash.file(), trash_doc)->Ok_0,
            loaded::<Task>(Collection::Todos.file(), todos_doc)->Ok_0,
            id,
        ) {
            None => Err::<(Seq<char>, Seq<char>), StoreErrorView>(
                StoreErrorView::NotFound { id, collection: Collection::Trash },
            ),
            Some((rest, grown)) => Ok((encoded::<Task>(rest), encoded::<Task>(grown))),
        },
{
    lemma_index_of(loaded::<Task>(Collection::Trash.file(), trash_doc)->Ok_0, id);
}

/// A collection whose file does not exist is empty, whatever the file's
/// name and the record type.
pub proof fn lemma_missing_file_is_empty<T: Record>(file: Seq<char>)
    ensures
        loaded::<T>(file, None) == Ok::<Seq<T::V>, StoreErrorView>(Seq::empty()),
{
}

} // verus!
