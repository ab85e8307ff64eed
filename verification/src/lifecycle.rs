//! The life of a task: from the active collection to the trash and back, or
//! out of the trash for good.
//!
//! Every operation works on snapshots of the two collections held in memory;
//! the caller loads them and writes them back.

use crate::codec::views;
use crate::error::{Collection, StoreError};
use crate::task::{Task, TaskView};
use vstd::prelude::*;

verus! {

/// Whether some task of `items` has the id.
pub open spec fn holds(items: Seq<TaskView>, id: u64) -> bool {
    exists|i: int| 0 <= i < items.len() && (#[trigger] items[i]).id == id
}

/// The index of the first task from `start` on that has the id; the list's
/// length if there is none.
pub open spec fn index_from(items: Seq<TaskView>, id: u64, start: int) -> int
    decreases items.len() - start,
{
    if start < 0 || start >= items.len() {
        items.len() as int
    } else if items[start].id == id {
        start
    } else {
        index_from(items, id, start + 1)
    }
}

/// The index of the first task that has the id; the list's length if there
/// is none.
pub open spec fn index_of(items: Seq<TaskView>, id: u64) -> int {
    index_from(items, id, 0)
}

/// The task as it lies in the active collection: without a trash mark.
pub open spec fn unmarked(task: TaskView) -> TaskView {
    TaskView { trashed_at: None, ..task }
}

/// The task as it lies in the trash: marked with the time it was trashed.
pub open spec fn marked(task: TaskView, at: Seq<char>) -> TaskView {
    TaskView { trashed_at: Some(at), ..task }
}

/// The two collections after the first task with the id has moved from the
/// active collection to the end of the trash, marked with `at`: the new
/// active collection, then the new trash. `None` when the active collection
/// has no such task.
pub open spec fn trashed(
    active: Seq<TaskView>,
    trash: Seq<TaskView>,
    id: u64,
    at: Seq<char>,
) -> Option<(Seq<TaskView>, Seq<TaskView>)> {
    let i = index_of(active, id);
    if i < active.len() {
        Some((active.remove(i), trash.push(marked(active[i], at))))
    } else {
        None
    }
}

/// The two collections after the first task with the id has moved from the
/// trash to the end of the active collection, its mark cleared: the new
/// trash, then the new active collection. `None` when the trash has no such
/// task.
pub open spec fn restored(trash: Seq<TaskView>, active: Seq<TaskView>, id: u64) -> Option<
    (Seq<TaskView>, Seq<TaskView>),
> {
    let i = index_of(trash, id);
    if i < trash.len() {
        Some((trash.remove(i), active.push(unmarked(trash[i]))))
    } else {
        None
    }
}

/// The trash after the first task with the id was removed from it. `None`
/// when the trash has no such task.
pub open spec fn purged(trash: Seq<TaskView>, id: u64) -> Option<Seq<TaskView>> {
    let i = index_of(trash, id);
    if i < trash.len() {
        Some(trash.remove(i))
    } else {
        None
    }
}

/// The error for an id that a collection does not hold.
pub open spec fn not_found(id: u64, collection: Collection) -> StoreError {
    StoreError::NotFound { id, collection }
}

/// What `index_from` finds: no task before it has the id, and the task at
/// it, if there is one, has it.
pub proof fn lemma_index_from(items: Seq<TaskView>, id: u64, start: int)
    requires
        0 <= start <= items.len(),
    ensures
        start <= index_from(items, id, start) <= items.len(),
        forall|i: int| start <= i < index_from(items, id, start) ==> (#[trigger] items[i]).id != id,
        index_from(items, id, start) < items.len() ==> items[index_from(items, id, start)].id == id,
    decreases items.len() - start,
{
    if start < items.len() && items[start].id != id {
        lemma_index_from(items, id, start + 1);
    }
}

/// A collection holds an id exactly when `index_of` points into it.
pub proof fn lemma_index_of(items: Seq<TaskView>, id: u64)
    ensures
        0 <= index_of(items, id) <= items.len(),
        holds(items, id) <==> index_of(items, id) < items.len(),
        forall|i: int| 0 <= i < index_of(items, id) ==> (#[trigger] items[i]).id != id,
        index_of(items, id) < items.len() ==> items[index_of(items, id)].id == id,
{
    lemma_index_from(items, id, 0);
}

/// Finds the first task with the id.
pub fn find_by_id(items: &Vec<Task>, id: u64) -> (found: Option<usize>)
    ensures
        match found {
            Some(i) => i < items.len() && i == index_of(views(items@), id),
            None => index_of(views(items@), id) == items.len(),
        },
{
    let mut i: usize = 0;
    while i < items.len()
        invariant
            i <= items.len(),
            index_of(views(items@), id) == index_from(views(items@), id, i as int),
        decreases items.len() - i,
    {
        if items[i].id == id {
            return Some(i);
        }
        i = i + 1;
    }
    None
}

/// Moves the first task with the id from the active collection to the end
/// of the trash and marks it with `at`, the time of the move. Fails, and
/// changes nothing, when the active collection has no such task.
pub fn trash_item(active: &mut Vec<Task>, trash: &mut Vec<Task>, id: u64, at: String) -> (outcome:
    Result<(), StoreError>)
    ensures
        match trashed(views(old(active)@), views(old(trash)@), id, at@) {
            Some((rest, grown)) => outcome is Ok && views(final(active)@) == rest && views(
                final(trash)@,
            ) == grown,
            None => outcome == Err::<(), StoreError>(not_found(id, Collection::Todos))
                && final(active)@ == old(active)@ && final(trash)@ == old(trash)@,
        },
        outcome is Ok <==> holds(views(old(active)@), id),
{
    proof {
        lemma_index_of(views(active@), id);
    }
    match find_by_id(active, id) {
        Some(i) => {
            let mut task = active.remove(i);
            task.trashed_at = Some(at);
            trash.push(task);
            Ok(())
        },
        None => Err(StoreError::NotFound { id, collection: Collection::Todos }),
    }
}

/// Moves the first task with the id from the trash to the end of the active
/// collection and clears its mark. Fails, and changes nothing, when the
/// trash has no such task.
pub fn restore(trash: &mut Vec<Task>, active: &mut Vec<Task>, id: u64) -> (outcome: Result<
    (),
    StoreError,
>)
    ensures
        match restored(views(old(trash)@), views(old(active)@), id) {
            Some((rest, grown)) => outcome is Ok && views(final(trash)@) == rest && views(
                final(active)@,
            ) == grown,
            None => outcome == Err::<(), StoreError>(not_found(id, Collection::Trash))
                && final(trash)@ == old(trash)@ && final(active)@ == old(active)@,
        },
        outcome is Ok <==> holds(views(old(trash)@), id),
{
    proof {
        lemma_index_of(views(trash@), id);
    }
    match find_by_id(trash, id) {
        Some(i) => {
            let mut task = trash.remove(i);
            task.trashed_at = None;
            active.push(task);
            Ok(())
        },
        None => Err(StoreError::NotFound { id, collection: Collection::Trash }),
    }
}

/// Removes the first task with the id from the trash. Fails, and changes
/// nothing, when the trash has no such task.
pub fn permanently_delete(trash: &mut Vec<Task>, id: u64) -> (outcome: Result<(), StoreError>)
    ensures
        match purged(views(old(trash)@), id) {
            Some(rest) => outcome is Ok && views(final(trash)@) == rest,
            None => outcome == Err::<(), StoreError>(not_found(id, Collection::Trash))
                && final(trash)@ == old(trash)@,
        },
        outcome is Ok <==> holds(views(old(trash)@), id),
{
    proof {
        lemma_index_of(views(trash@), id);
    }
    match find_by_id(trash, id) {
        Some(i) => {
            trash.remove(i);
            Ok(())
        },
        None => Err(StoreError::NotFound { id, collection: Collection::Trash }),
    }
}

/// The trash after it was emptied.
pub open spec fn emptied(trash: Seq<TaskView>) -> Seq<TaskView> {
    Seq::empty()
}

/// Removes every task from the trash.
pub fn empty_trash(trash: &mut Vec<Task>)
    ensures
        views(final(trash)@) == emptied(views(old(trash)@)),
{
    trash.clear();
}

/// At most one task of `items` has the id.
pub open spec fn at_most_once(items: Seq<TaskView>, id: u64) -> bool {
    forall|i: int, j: int|
        0 <= i < items.len() && 0 <= j < items.len() && (#[trigger] items[i]).id == id && (
        #[trigger] items[j]).id == id ==> i == j
}

/// No two tasks of `items` share an id.
pub open spec fn distinct_ids(items: Seq<TaskView>) -> bool {
    forall|i: int, j: int|
        0 <= i < j < items.len() ==> (#[trigger] items[i]).id != (#[trigger] items[j]).id
}

/// The two collections are in order: no id occurs twice in them taken
/// together, no active task carries a trash mark, and every task in the
/// trash carries one.
pub open spec fn consistent(active: Seq<TaskView>, trash: Seq<TaskView>) -> bool {
    &&& distinct_ids(active + trash)
    &&& forall|i: int| 0 <= i < active.len() ==> (#[trigger] active[i]).trashed_at is None
    &&& forall|i: int| 0 <= i < trash.len() ==> (#[trigger] trash[i]).trashed_at is Some
}

/// After a task was trashed, its id is in the trash, on the last task, which
/// carries the time of the move; and the id is gone from the active
/// collection, provided it was there only once.
pub proof fn lemma_trashed_moves(
    active: Seq<TaskView>,
    trash: Seq<TaskView>,
    id: u64,
    at: Seq<char>,
)
    requires
        trashed(active, trash, id, at) is Some,
        at_most_once(active, id),
    ensures
        trashed(active, trash, id, at) matches Some((rest, grown)) && {
            &&& !holds(rest, id)
            &&& holds(grown, id)
            &&& grown.last().id == id
            &&& grown.last().trashed_at == Some(at)
        },
{
    lemma_index_of(active, id);
    lemma_removed_once(active, id);
    let grown = trash.push(marked(active[index_of(active, id)], at));
    assert(grown[grown.len() - 1].id == id);
}

/// After a task was restored, its id is in the active collection, on the
/// last task, which carries no trash mark; and the id is gone from the
/// trash, provided it was there only once.
pub proof fn lemma_restored_moves(trash: Seq<TaskView>, active: Seq<TaskView>, id: u64)
    requires
        restored(trash, active, id) is Some,
        at_most_once(trash, id),
    ensures
        restored(trash, active, id) matches Some((rest, grown)) && {
            &&& !holds(rest, id)
            &&& holds(grown, id)
            &&& grown.last().id == id
            &&& grown.last().trashed_at is None
        },
{
    lemma_index_of(trash, id);
    lemma_removed_once(trash, id);
    let grown = active.push(unmarked(trash[index_of(trash, id)]));
    assert(grown[grown.len() - 1].id == id);
}

/// Where an id occurs only once, it is gone once its first task is removed.
pub proof fn lemma_removed_once(items: Seq<TaskView>, id: u64)
    requires
        holds(items, id),
        at_most_once(items, id),
    ensures
        !holds(items.remove(index_of(items, id)), id),
{
    lemma_index_of(items, id);
    let i = index_of(items, id);
    let rest = items.remove(i);
    assert forall|k: int| 0 <= k < rest.len() implies (#[trigger] rest[k]).id != id by {
        // rest[k] is items[k] before the gap and items[k + 1] after it
        let from = if k < i {
            k
        } else {
            k + 1
        };
        assert(rest[k] == items[from]);
    }
}

/// An id that the trash does not hold can be neither restored nor deleted.
pub proof fn lemma_absent_is_not_found(trash: Seq<TaskView>, active: Seq<TaskView>, id: u64)
    requires
        !holds(trash, id),
    ensures
        restored(trash, active, id) is None,
        purged(trash, id) is None,
{
    lemma_index_of(trash, id);
}

/// Emptying the trash leaves it empty, and emptying it again changes
/// nothing.
pub proof fn lemma_emptied_twice(trash: Seq<TaskView>)
    ensures
        emptied(trash).len() == 0,
        emptied(emptied(trash)) == emptied(trash),
{
}

/// Filtering out an id from a list that does not hold it changes nothing.
pub proof fn lemma_filter_absent(items: Seq<TaskView>, id: u64)
    requires
        !holds(items, id),
    ensures
        items.filter(|task: TaskView| task.id != id) == items,
    decreases items.len(),
{
    reveal(Seq::filter);
    if items.len() > 0 {
        let front = items.drop_last();
        assert forall|k: int| 0 <= k < front.len() implies (#[trigger] front[k]).id != id by {
            assert(front[k] == items[k]);
        }
        lemma_filter_absent(front, id);
        assert(front.push(items.last()) =~= items);
    }
}

/// Where the id occurs only once, deleting it is filtering it out: what
/// stays are the tasks with another id, in their order.
pub proof fn lemma_purged_once(trash: Seq<TaskView>, id: u64)
    requires
        holds(trash, id),
        at_most_once(trash, id),
    ensures
        purged(trash, id) == Some(trash.filter(|task: TaskView| task.id != id)),
    decreases trash.len(),
{
    reveal(Seq::filter);
    lemma_index_of(trash, id);
    let i = index_of(trash, id);
    let front = trash.drop_last();
    if i == trash.len() - 1 {
        // the one task with the id is the last: the front holds none
        assert forall|k: int| 0 <= k < front.len() implies (#[trigger] front[k]).id != id by {
            assert(front[k] == trash[k]);
        }
        lemma_filter_absent(front, id);
        assert(trash.remove(i) =~= front);
    } else {
        // the one task with the id is in the front, and the last task stays
        assert(front[i] == trash[i]);
        assert forall|a: int, b: int|
            0 <= a < front.len() && 0 <= b < front.len() && (#[trigger] front[a]).id == id && (
            #[trigger] front[b]).id == id implies a == b by {
            assert(front[a] == trash[a] && front[b] == trash[b]);
        }
        lemma_purged_once(front, id);
        lemma_index_of(front, id);
        assert(index_of(front, id) == i);
        assert(trash.remove(i) =~= front.remove(i).push(trash.last()));
    }
}

/// Trashing a task keeps the collections in order.
pub proof fn lemma_trashed_consistent(
    active: Seq<TaskView>,
    trash: Seq<TaskView>,
    id: u64,
    at: Seq<char>,
)
    requires
        consistent(active, trash),
        trashed(active, trash, id, at) is Some,
    ensures
        trashed(active, trash, id, at) matches Some((rest, grown)) && consistent(rest, grown),
{
    lemma_index_of(active, id);
    let i = index_of(active, id);
    let rest = active.remove(i);
    let grown = trash.push(marked(active[i], at));
    let before = active + trash;
    let after = rest + grown;
    assert forall|a: int, b: int| 0 <= a < b < after.len() implies (#[trigger] after[a]).id != (
    #[trigger] after[b]).id by {
        // where the two tasks stood before the move: the moved task is now
        // the last, the tasks behind it in the active collection moved up
        let from_a = if a < i {
            a
        } else {
            a + 1
        };
        let from_b = if b == after.len() - 1 {
            i
        } else if b < i {
            b
        } else {
            b + 1
        };
        assert(after[a].id == before[from_a].id);
        assert(after[b].id == before[from_b].id);
        assert(from_a != from_b);
        assert(before[from_a].id != before[from_b].id);
    }
    assert forall|k: int| 0 <= k < rest.len() implies (#[trigger] rest[k]).trashed_at is None by {
        let from = if k < i {
            k
        } else {
            k + 1
        };
        assert(rest[k] == active[from]);
    }
    assert forall|k: int| 0 <= k < grown.len() implies (#[trigger] grown[k]).trashed_at is Some by {
        if k < trash.len() {
            assert(grown[k] == trash[k]);
        }
    }
}

/// Restoring a task keeps the collections in order.
pub proof fn lemma_restored_consistent(trash: Seq<TaskView>, active: Seq<TaskView>, id: u64)
    requires
        consistent(active, trash),
        restored(trash, active, id) is Some,
    ensures
        restored(trash, active, id) matches Some((rest, grown)) && consistent(grown, rest),
{
    lemma_index_of(trash, id);
    let i = index_of(trash, id);
    let rest = trash.remove(i);
    let grown = active.push(unmarked(trash[i]));
    let before = active + trash;
    let after = grown + rest;
    let n = active.len() as int;
    assert forall|a: int, b: int| 0 <= a < b < after.len() implies (#[trigger] after[a]).id != (
    #[trigger] after[b]).id by {
        // where the two tasks stood before the move: the moved task is now
        // the last active one, the trashed tasks before it moved back
        let from_a = if a < n {
            a
        } else if a == n {
            n + i
        } else if a - n - 1 < i {
            a - 1
        } else {
            a
        };
        let from_b = if b < n {
            b
        } else if b == n {
            n + i
        } else if b - n - 1 < i {
            b - 1
        } else {
            b
        };
        assert(after[a].id == before[from_a].id);
        assert(after[b].id == before[from_b].id);
        assert(from_a != from_b);
        assert(before[from_a].id != before[from_b].id);
    }
    assert forall|k: int| 0 <= k < grown.len() implies (#[trigger] grown[k]).trashed_at is None by {
        if k < n {
            assert(grown[k] == active[k]);
        }
    }
    assert forall|k: int| 0 <= k < rest.len() implies (#[trigger] rest[k]).trashed_at is Some by {
        let from = if k < i {
            k
        } else {
            k + 1
        };
        assert(rest[k] == trash[from]);
    }
}

/// Deleting a task from the trash keeps the collections in order.
pub proof fn lemma_purged_consistent(active: Seq<TaskView>, trash: Seq<TaskView>, id: u64)
    requires
        consistent(active, trash),
        purged(trash, id) is Some,
    ensures
        consistent(active, purged(trash, id)->0),
{
    lemma_index_of(trash, id);
    let i = index_of(trash, id);
    let n = active.len() as int;
    let rest = trash.remove(i);
    let before = active + trash;
    let after = active + rest;
    assert forall|a: int, b: int| 0 <= a < b < after.len() implies (#[trigger] after[a]).id != (
    #[trigger] after[b]).id by {
        // where the two tasks stood before: those behind the gap moved up
        let from_a = if a < n + i {
            a
        } else {
            a + 1
        };
        let from_b = if b < n + i {
            b
        } else {
            b + 1
        };
        assert(after[a].id == before[from_a].id);
        assert(after[b].id == before[from_b].id);
        assert(before[from_a].id != before[from_b].id);
    }
    assert forall|k: int| 0 <= k < rest.len() implies (#[trigger] rest[k]).trashed_at is Some by {
        let from = if k < i {
            k
        } else {
            k + 1
        };
        assert(rest[k] == trash[from]);
    }
}

/// Emptying the trash keeps the collections in order.
pub proof fn lemma_emptied_consistent(active: Seq<TaskView>, trash: Seq<TaskView>)
    requires
        consistent(active, trash),
    ensures
        consistent(active, emptied(trash)),
{
    let before = active + trash;
    let after = active + emptied(trash);
    assert forall|a: int, b: int| 0 <= a < b < after.len() implies (#[trigger] after[a]).id != (
    #[trigger] after[b]).id by {
        assert(after[a] == before[a] && after[b] == before[b]);
    }
}

} // verus!
