//! A single task and its mathematical view.

use vstd::prelude::*;

verus! {

/// One entry of the task list.
#[derive(Debug, Clone, PartialEq, Eq)]
pub struct Todo {
    /// Identifier, assigned by the store when the task is added.
    pub id: usize,
    /// Free text supplied by the user; no validation is applied to it.
    pub description: String,
    /// Whether the task has been marked as done.
    pub completed: bool,
}

/// What a [`Todo`] stands for: its identifier as a natural number, its
/// description as a sequence of characters, and its completion flag.
pub struct TodoView {
    pub id: nat,
    pub description: Seq<char>,
    pub completed: bool,
}

impl View for Todo {
    type V = TodoView;

    open spec fn view(&self) -> TodoView {
        TodoView { id: self.id as nat, description: self.description@, completed: self.completed }
    }
}

/// The views of a sequence of tasks, in the same order.
pub open spec fn views(todos: Seq<Todo>) -> Seq<TodoView> {
    Seq::new(todos.len(), |i: int| todos[i]@)
}

impl Todo {
    /// A pending task with the given identifier and description.
    pub fn new(id: usize, description: String) -> (todo: Todo)
        ensures
            todo@ == (TodoView { id: id as nat, description: description@, completed: false }),
    {
        Todo { id, description, completed: false }
    }
}

} // verus!
