//! Laws of the task list, proved over its model.

use crate::model::{
    first_with_id, first_with_id_exists, first_with_id_unique, has_id, ids_distinct, ids_positive,
    is_first_with_id, marked, max_id, max_id_attained, max_id_bounds, next_id, pending,
    with_added, with_all_added, with_completed, with_removed,
};
use crate::store::{loaded, Stored, TodoManager};
use crate::task::{views, Todo, TodoView};
use vstd::prelude::*;

verus! {

/// The identifier handed out by an add is 1 for an empty list and otherwise
/// one more than the largest identifier present; it is larger than every
/// identifier present, so no task of the list carries it.
pub proof fn next_id_is_fresh(s: Seq<TodoView>)
    ensures
        s.len() == 0 ==> next_id(s) == 1,
        forall|i: int| 0 <= i < s.len() ==> (#[trigger] s[i]).id < next_id(s),
        s.len() > 0 ==> exists|i: int| 0 <= i < s.len() && (#[trigger] s[i]).id + 1 == next_id(s),
        !has_id(s, next_id(s)),
{
    max_id_bounds(s);
    max_id_attained(s);
}

/// Adding a task raises the largest identifier, and with it the next one,
/// by exactly one.
pub proof fn add_advances_next_id(s: Seq<TodoView>, description: Seq<char>)
    ensures
        max_id(with_added(s, description)) == max_id(s) + 1,
        next_id(with_added(s, description)) == next_id(s) + 1,
{
    let after = with_added(s, description);
    assert(after.drop_last() =~= s);
    assert(after.last() == pending(next_id(s), description));
}

/// Adding keeps the tasks that were there, in place and unchanged, and keeps
/// identifiers distinct and positive where they were so before.
pub proof fn add_preserves(s: Seq<TodoView>, description: Seq<char>)
    ensures
        with_added(s, description).len() == s.len() + 1,
        forall|i: int| 0 <= i < s.len() ==> #[trigger] with_added(s, description)[i] == s[i],
        ids_distinct(s) ==> ids_distinct(with_added(s, description)),
        ids_positive(s) ==> ids_positive(with_added(s, description)),
{
    next_id_is_fresh(s);
}

/// For every sequence of adds: the list grows by one task per description,
/// the tasks that were there stay in place, and the `k`-th new task carries
/// its description, is pending, and has the identifier that was next when it
/// was added, which is the `k`-th after the one that was next at the start.
pub proof fn adds_number_consecutively(s: Seq<TodoView>, descriptions: Seq<Seq<char>>)
    ensures
        with_all_added(s, descriptions).len() == s.len() + descriptions.len(),
        forall|i: int| 0 <= i < s.len() ==> #[trigger] with_all_added(s, descriptions)[i] == s[i],
        forall|k: int|
            0 <= k < descriptions.len() ==> with_all_added(s, descriptions)[s.len() + k]
                == pending(
                next_id(with_all_added(s, descriptions.take(k))),
                #[trigger] descriptions[k],
            ),
        forall|k: int|
            0 <= k <= descriptions.len() ==> next_id(
                with_all_added(s, #[trigger] descriptions.take(k)),
            ) == next_id(s) + k,
    decreases descriptions.len(),
{
    let all = with_all_added(s, descriptions);
    if descriptions.len() == 0 {
        assert forall|k: int| 0 <= k <= descriptions.len() implies next_id(
            with_all_added(s, #[trigger] descriptions.take(k)),
        ) == next_id(s) + k by {
            assert(descriptions.take(k) =~= descriptions);
        }
    } else {
        let front = descriptions.drop_last();
        let before = with_all_added(s, front);
        adds_number_consecutively(s, front);
        add_advances_next_id(before, descriptions.last());
        assert(front.take(front.len() as int) =~= front);
        assert forall|k: int| 0 <= k <= descriptions.len() implies next_id(
            with_all_added(s, #[trigger] descriptions.take(k)),
        ) == next_id(s) + k by {
            if k == descriptions.len() {
                assert(descriptions.take(k) =~= descriptions);
            } else {
                assert(descriptions.take(k) =~= front.take(k));
            }
        }
        assert forall|k: int| 0 <= k < descriptions.len() implies all[s.len() + k] == pending(
            next_id(with_all_added(s, descriptions.take(k))),
            #[trigger] descriptions[k],
        ) by {
            if k == descriptions.len() - 1 {
                assert(descriptions.take(k) =~= front);
            } else {
                assert(descriptions.take(k) =~= front.take(k));
                assert(front[k] == descriptions[k]);
                assert(all[s.len() + k] == before[s.len() + k]);
            }
        }
    }
}

/// For every run of adds on a list that starts empty: the list holds one
/// task per description, in the order of the adds, and the `k`-th of them,
/// counting from zero, is pending, carries the `k`-th description and has
/// the identifier `k + 1`.
pub proof fn adds_from_empty_count_from_one(descriptions: Seq<Seq<char>>)
    ensures
        with_all_added(Seq::empty(), descriptions).len() == descriptions.len(),
        forall|k: int|
            0 <= k < descriptions.len() ==> #[trigger] with_all_added(Seq::empty(), descriptions)[k]
                == pending((k + 1) as nat, descriptions[k]),
{
    let start = Seq::<TodoView>::empty();
    let all = with_all_added(start, descriptions);
    adds_number_consecutively(start, descriptions);
    assert forall|k: int| 0 <= k < descriptions.len() implies #[trigger] all[k] == pending(
        (k + 1) as nat,
        descriptions[k],
    ) by {
        assert(all[start.len() + k] == pending(
            next_id(with_all_added(start, descriptions.take(k))),
            descriptions[k],
        ));
        assert(next_id(with_all_added(start, descriptions.take(k))) == next_id(start) + k);
    }
}

/// Completing changes no identifier, so the next identifier stays the same.
pub proof fn complete_keeps_next_id(s: Seq<TodoView>, id: nat)
    ensures
        with_completed(s, id).len() == s.len(),
        forall|i: int| 0 <= i < s.len() ==> (#[trigger] with_completed(s, id)[i]).id == s[i].id,
        max_id(with_completed(s, id)) == max_id(s),
        next_id(with_completed(s, id)) == next_id(s),
{
    let after = with_completed(s, id);
    if has_id(s, id) {
        first_with_id_exists(s, id);
    }
    same_ids_same_max(s, after);
}

/// Lists that agree on the identifiers, place by place, have the same
/// largest identifier.
proof fn same_ids_same_max(a: Seq<TodoView>, b: Seq<TodoView>)
    requires
        a.len() == b.len(),
        forall|i: int| 0 <= i < a.len() ==> (#[trigger] a[i]).id == b[i].id,
    ensures
        max_id(a) == max_id(b),
    decreases a.len(),
{
    if a.len() > 0 {
        assert forall|i: int| 0 <= i < a.drop_last().len() implies (#[trigger] a.drop_last()[i]).id
            == b.drop_last()[i].id by {
            assert(a.drop_last()[i] == a[i]);
            assert(b.drop_last()[i] == b[i]);
        }
        same_ids_same_max(a.drop_last(), b.drop_last());
        assert(a.last() == a[a.len() - 1]);
        assert(b.last() == b[b.len() - 1]);
    }
}

/// Completing an identifier twice gives what completing it once gives: the
/// task is found both times and is done after each.
pub proof fn complete_is_idempotent(s: Seq<TodoView>, id: nat)
    ensures
        has_id(with_completed(s, id), id) == has_id(s, id),
        with_completed(with_completed(s, id), id) == with_completed(s, id),
        has_id(s, id) ==> with_completed(s, id)[first_with_id(s, id)] == marked(
            s[first_with_id(s, id)],
        ),
{
    let once = with_completed(s, id);
    if has_id(s, id) {
        first_with_id_exists(s, id);
        let p = first_with_id(s, id);
        assert(is_first_with_id(once, id, p)) by {
            assert forall|j: int| 0 <= j < p implies (#[trigger] once[j]).id != id by {
                assert(once[j] == s[j]);
            }
        }
        first_with_id_unique(once, id, p);
        assert(with_completed(once, id) =~= once);
    } else {
        assert(once == s);
    }
}

/// Completing or removing an identifier that no task carries leaves the list
/// as it is.
pub proof fn absent_id_changes_nothing(s: Seq<TodoView>, id: nat)
    requires
        !has_id(s, id),
    ensures
        with_completed(s, id) == s,
        with_removed(s, id) == s,
{
}

/// Removing takes out exactly one task when the identifier is present, keeps
/// the others in their order, never raises the next identifier, and keeps
/// identifiers distinct and positive where they were so before.
pub proof fn remove_preserves(s: Seq<TodoView>, id: nat)
    ensures
        has_id(s, id) ==> with_removed(s, id).len() + 1 == s.len(),
        has_id(s, id) ==> forall|i: int|
            0 <= i < with_removed(s, id).len() ==> #[trigger] with_removed(s, id)[i] == (if i
                < first_with_id(s, id) {
                s[i]
            } else {
                s[i + 1]
            }),
        max_id(with_removed(s, id)) <= max_id(s),
        next_id(with_removed(s, id)) <= next_id(s),
        ids_distinct(s) ==> ids_distinct(with_removed(s, id)),
        ids_distinct(s) ==> !has_id(with_removed(s, id), id),
        ids_positive(s) ==> ids_positive(with_removed(s, id)),
{
    let after = with_removed(s, id);
    if has_id(s, id) {
        first_with_id_exists(s, id);
        let p = first_with_id(s, id);
        max_id_bounds(s);
        max_id_attained(after);
        if after.len() > 0 {
            let i = choose|i: int| 0 <= i < after.len() && (#[trigger] after[i]).id == max_id(after);
            if i < p {
                assert(after[i] == s[i]);
            } else {
                assert(after[i] == s[i + 1]);
            }
        }
        if ids_distinct(s) {
            assert forall|i: int, j: int| 0 <= i < j < after.len() implies (#[trigger] after[i]).id
                != (#[trigger] after[j]).id by {
                let si = if i < p { i } else { i + 1 };
                let sj = if j < p { j } else { j + 1 };
                assert(after[i] == s[si]);
                assert(after[j] == s[sj]);
            }
            assert forall|i: int| 0 <= i < after.len() implies (#[trigger] after[i]).id != id by {
                let si = if i < p { i } else { i + 1 };
                assert(after[i] == s[si]);
                assert(s[p].id == id);
            }
        }
        if ids_positive(s) {
            assert forall|i: int| 0 <= i < after.len() implies (#[trigger] after[i]).id >= 1 by {
                let si = if i < p { i } else { i + 1 };
                assert(after[i] == s[si]);
            }
        }
    }
}

/// Putting a store away and opening it again: a store opened on the tasks
/// that `store` hands out holds the same tasks as `store`, with the same
/// identifiers, descriptions and flags, in the same order.
pub proof fn reopening_reproduces(store: TodoManager, todos: Vec<Todo>)
    requires
        views(todos@) == store@,
    ensures
        loaded(Stored::Tasks { todos }) == store@,
{
}

/// An identifier that was removed is not handed out again by the adds that
/// follow, unless it lies above every identifier that stays and the adds
/// are many enough to count up to it: short of that, no task added
/// afterwards carries it. Where some task that stays carries an identifier
/// at least as large, every task added afterwards gets a larger one.
pub proof fn removed_id_is_not_reassigned(
    s: Seq<TodoView>,
    id: nat,
    descriptions: Seq<Seq<char>>,
)
    requires
        has_id(s, id),
        max_id(with_removed(s, id)) >= id || max_id(with_removed(s, id)) + descriptions.len() < id,
    ensures
        with_all_added(with_removed(s, id), descriptions).len() == with_removed(s, id).len()
            + descriptions.len(),
        forall|i: int|
            with_removed(s, id).len() <= i < with_all_added(with_removed(s, id), descriptions).len()
                ==> (#[trigger] with_all_added(with_removed(s, id), descriptions)[i]).id != id,
        max_id(with_removed(s, id)) >= id ==> forall|i: int|
            with_removed(s, id).len() <= i < with_all_added(with_removed(s, id), descriptions).len()
                ==> (#[trigger] with_all_added(with_removed(s, id), descriptions)[i]).id > id,
{
    let kept = with_removed(s, id);
    let all = with_all_added(kept, descriptions);
    adds_number_consecutively(kept, descriptions);
    assert forall|i: int| kept.len() <= i < all.len() implies (#[trigger] all[i]).id == next_id(
        kept,
    ) + (i - kept.len()) by {
        let k = i - kept.len();
        assert(all[kept.len() + k] == pending(
            next_id(with_all_added(kept, descriptions.take(k))),
            descriptions[k],
        ));
        assert(next_id(with_all_added(kept, descriptions.take(k))) == next_id(kept) + k);
    }
}

} // verus!
