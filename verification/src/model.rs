//! The mathematical model of the task list: a sequence of task views, and
//! what each operation makes of it.

use crate::task::TodoView;
use vstd::prelude::*;

verus! {

/// The largest identifier in `s`, or zero when `s` is empty.
pub open spec fn max_id(s: Seq<TodoView>) -> nat
    decreases s.len(),
{
    if s.len() == 0 {
        0
    } else {
        let rest = max_id(s.drop_last());
        if s.last().id > rest {
            s.last().id
        } else {
            rest
        }
    }
}

/// The identifier that the next added task receives: one more than the
/// largest one present, hence 1 for an empty list.
pub open spec fn next_id(s: Seq<TodoView>) -> nat {
    max_id(s) + 1
}

/// Whether some task of `s` carries the identifier `id`.
pub open spec fn has_id(s: Seq<TodoView>, id: nat) -> bool {
    exists|i: int| 0 <= i < s.len() && (#[trigger] s[i]).id == id
}

/// Whether `p` is the position of the first task of `s` that carries `id`.
pub open spec fn is_first_with_id(s: Seq<TodoView>, id: nat, p: int) -> bool {
    &&& 0 <= p < s.len()
    &&& s[p].id == id
    &&& forall|j: int| 0 <= j < p ==> (#[trigger] s[j]).id != id
}

/// The position of the first task of `s` that carries `id`; meaningful only
/// when `has_id(s, id)`.
pub open spec fn first_with_id(s: Seq<TodoView>, id: nat) -> int {
    choose|p: int| is_first_with_id(s, id, p)
}

/// The task `t`, marked as done.
pub open spec fn marked(t: TodoView) -> TodoView {
    TodoView { id: t.id, description: t.description, completed: true }
}

/// A fresh pending task.
pub open spec fn pending(id: nat, description: Seq<char>) -> TodoView {
    TodoView { id, description, completed: false }
}

/// The list after adding a task with the given description: the new task
/// goes to the end and takes the next identifier.
pub open spec fn with_added(s: Seq<TodoView>, description: Seq<char>) -> Seq<TodoView> {
    s.push(pending(next_id(s), description))
}

/// The list after adding one task for each of the given descriptions, first
/// to last.
pub open spec fn with_all_added(s: Seq<TodoView>, descriptions: Seq<Seq<char>>) -> Seq<TodoView>
    decreases descriptions.len(),
{
    if descriptions.len() == 0 {
        s
    } else {
        with_added(with_all_added(s, descriptions.drop_last()), descriptions.last())
    }
}

/// The list after completing `id`: the first task that carries it is marked
/// as done; a list without such a task stays as it is.
pub open spec fn with_completed(s: Seq<TodoView>, id: nat) -> Seq<TodoView> {
    if has_id(s, id) {
        let p = first_with_id(s, id);
        s.update(p, marked(s[p]))
    } else {
        s
    }
}

/// The list after removing `id`: the first task that carries it is taken
/// out and the later ones move up; a list without such a task stays as it is.
pub open spec fn with_removed(s: Seq<TodoView>, id: nat) -> Seq<TodoView> {
    if has_id(s, id) {
        s.remove(first_with_id(s, id))
    } else {
        s
    }
}

/// Whether no two tasks of `s` share an identifier.
pub open spec fn ids_distinct(s: Seq<TodoView>) -> bool {
    forall|i: int, j: int|
        0 <= i < j < s.len() ==> (#[trigger] s[i]).id != (#[trigger] s[j]).id
}

/// Whether every identifier in `s` is at least 1.
pub open spec fn ids_positive(s: Seq<TodoView>) -> bool {
    forall|i: int| 0 <= i < s.len() ==> (#[trigger] s[i]).id >= 1
}

/// `max_id` is an upper bound of the identifiers.
pub proof fn max_id_bounds(s: Seq<TodoView>)
    ensures
        forall|i: int| 0 <= i < s.len() ==> (#[trigger] s[i]).id <= max_id(s),
    decreases s.len(),
{
    if s.len() > 0 {
        max_id_bounds(s.drop_last());
        assert forall|i: int| 0 <= i < s.len() implies (#[trigger] s[i]).id <= max_id(s) by {
            if i < s.len() - 1 {
                assert(s.drop_last()[i] == s[i]);
            }
        }
    }
}

/// `max_id` is attained by some task, unless the list is empty.
pub proof fn max_id_attained(s: Seq<TodoView>)
    ensures
        s.len() == 0 ==> max_id(s) == 0,
        s.len() > 0 ==> exists|i: int| 0 <= i < s.len() && (#[trigger] s[i]).id == max_id(s),
    decreases s.len(),
{
    if s.len() > 0 {
        let rest = s.drop_last();
        max_id_attained(rest);
        if s.last().id > max_id(rest) || rest.len() == 0 {
            assert(s[s.len() - 1].id == max_id(s));
        } else {
            let i = choose|i: int| 0 <= i < rest.len() && (#[trigger] rest[i]).id == max_id(rest);
            assert(s[i] == rest[i]);
        }
    }
}

/// There is at most one first position: whoever is first is the one that
/// `first_with_id` names.
pub proof fn first_with_id_unique(s: Seq<TodoView>, id: nat, p: int)
    requires
        is_first_with_id(s, id, p),
    ensures
        has_id(s, id),
        first_with_id(s, id) == p,
{
    let q = first_with_id(s, id);
    assert(is_first_with_id(s, id, q));
    if q < p {
        assert(s[q].id != id);
    } else if p < q {
        assert(s[p].id != id);
    }
}

/// When `id` occurs at position `i`, a first position exists at or before `i`.
proof fn first_before(s: Seq<TodoView>, id: nat, i: int) -> (p: int)
    requires
        0 <= i < s.len(),
        s[i].id == id,
    ensures
        is_first_with_id(s, id, p),
        p <= i,
    decreases i,
{
    if exists|j: int| 0 <= j < i && (#[trigger] s[j]).id == id {
        let j = choose|j: int| 0 <= j < i && (#[trigger] s[j]).id == id;
        first_before(s, id, j)
    } else {
        i
    }
}

/// When `id` occurs at all, `first_with_id` names its first position.
pub proof fn first_with_id_exists(s: Seq<TodoView>, id: nat)
    requires
        has_id(s, id),
    ensures
        is_first_with_id(s, id, first_with_id(s, id)),
{
    let i = choose|i: int| 0 <= i < s.len() && (#[trigger] s[i]).id == id;
    let p = first_before(s, id, i);
    first_with_id_unique(s, id, p);
}

} // verus!
