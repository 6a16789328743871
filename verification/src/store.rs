//! The task store: the tasks in insertion order, and the operations on them.

use crate::error::InitializationError;
use crate::model::{
    first_with_id, first_with_id_unique, has_id, is_first_with_id, max_id, next_id, with_added,
    with_completed, with_removed,
};
use crate::task::{views, Todo, TodoView};
use vstd::prelude::*;

verus! {

/// The in-memory task list. Tasks keep the order in which they were added;
/// that order is also the order in which they are shown.
pub struct TodoManager {
    todos: Vec<Todo>,
}

/// What was found in the place where the tasks are kept between runs.
#[derive(Debug)]
pub enum Stored {
    /// Nothing is there yet.
    Absent,
    /// Something is there, but it could not be read.
    Unreadable,
    /// The contents were read, but they are not a task list.
    Malformed,
    /// The contents were read and hold these tasks, in this order.
    Tasks { todos: Vec<Todo> },
}

/// The task list that a store starts with, given what was found. Tasks
/// that were found are the list; contents that are missing, that cannot be
/// read, or that are not a task list give an empty list, and none of them
/// is a failure.
pub open spec fn loaded(found: Stored) -> Seq<TodoView> {
    match found {
        Stored::Absent => Seq::empty(),
        Stored::Unreadable => Seq::empty(),
        Stored::Malformed => Seq::empty(),
        Stored::Tasks { todos } => views(todos@),
    }
}

impl View for TodoManager {
    type V = Seq<TodoView>;

    closed spec fn view(&self) -> Seq<TodoView> {
        views(self.todos@)
    }
}

impl TodoManager {
    /// Opens the store on what was found in the place where the tasks are
    /// kept. This always succeeds: tasks that were found are taken as they
    /// are, in their order, and anything else opens an empty store.
    pub fn new(found: Stored) -> (r: Result<TodoManager, InitializationError>)
        ensures
            r matches Ok(store) && store@ == loaded(found),
    {
        match found {
            Stored::Absent => Ok(TodoManager::empty()),
            Stored::Unreadable => Ok(TodoManager::empty()),
            Stored::Malformed => Ok(TodoManager::empty()),
            Stored::Tasks { todos } => Ok(TodoManager::from_todos(todos)),
        }
    }

    /// A store without tasks.
    pub fn empty() -> (store: TodoManager)
        ensures
            store@ == Seq::<TodoView>::empty(),
    {
        let store = TodoManager { todos: Vec::new() };
        assert(store@ =~= Seq::<TodoView>::empty());
        store
    }

    /// A store that holds exactly the given tasks, in the given order.
    pub fn from_todos(todos: Vec<Todo>) -> (store: TodoManager)
        ensures
            store@ == views(todos@),
    {
        TodoManager { todos }
    }

    /// The tasks, in order.
    pub fn todos(&self) -> (todos: &Vec<Todo>)
        ensures
            views(todos@) == self@,
    {
        &self.todos
    }

    /// The number of tasks.
    pub fn len(&self) -> (n: usize)
        ensures
            n == self@.len(),
    {
        self.todos.len()
    }

    /// Whether the store holds no task.
    pub fn is_empty(&self) -> (b: bool)
        ensures
            b == (self@.len() == 0),
    {
        self.todos.len() == 0
    }

    /// The largest identifier in use, or zero for an empty store.
    pub fn largest_id(&self) -> (largest: usize)
        ensures
            largest == max_id(self@),
    {
        let mut largest: usize = 0;
        let mut i: usize = 0;
        while i < self.todos.len()
            invariant
                i <= self.todos.len(),
                largest == max_id(self@.take(i as int)),
            decreases self.todos.len() - i,
        {
            proof {
                let upto = self@.take(i + 1);
                assert(upto.drop_last() =~= self@.take(i as int));
                assert(upto.last() == self@[i as int]);
            }
            if self.todos[i].id > largest {
                largest = self.todos[i].id;
            }
            i = i + 1;
        }
        assert(self@.take(i as int) =~= self@);
        largest
    }

    /// The identifier that the next added task would receive, or `None`
    /// when it would not fit the identifier type.
    pub fn next_id(&self) -> (id: Option<usize>)
        ensures
            id == (if next_id(self@) <= usize::MAX {
                Some(next_id(self@) as usize)
            } else {
                None
            }),
    {
        self.largest_id().checked_add(1)
    }

    /// The position of the first task that carries `id`, if there is one.
    pub fn position(&self, id: usize) -> (found: Option<usize>)
        ensures
            found is Some <==> has_id(self@, id as nat),
            found matches Some(p) ==> is_first_with_id(self@, id as nat, p as int),
            found matches Some(p) ==> p == first_with_id(self@, id as nat),
    {
        let mut i: usize = 0;
        while i < self.todos.len()
            invariant
                i <= self.todos.len(),
                forall|j: int| 0 <= j < i ==> (#[trigger] self@[j]).id != id,
            decreases self.todos.len() - i,
        {
            if self.todos[i].id == id {
                proof {
                    first_with_id_unique(self@, id as nat, i as int);
                }
                return Some(i);
            }
            i = i + 1;
        }
        None
    }

    /// Appends a pending task with the given description and returns the
    /// identifier it was given.
    pub fn add(&mut self, description: String) -> (id: usize)
        requires
            next_id(old(self)@) <= usize::MAX,
        ensures
            id == next_id(old(self)@),
            final(self)@ == with_added(old(self)@, description@),
    {
        let id: usize = self.largest_id() + 1;
        self.todos.push(Todo { id, description, completed: false });
        assert(self@ =~= with_added(old(self)@, description@));
        id
    }

    /// Marks the first task that carries `id` as done and says whether there
    /// was one. A task that was done already stays done.
    pub fn complete(&mut self, id: usize) -> (found: bool)
        ensures
            found == has_id(old(self)@, id as nat),
            final(self)@ == with_completed(old(self)@, id as nat),
            !found ==> final(self)@ == old(self)@,
    {
        match self.position(id) {
            Some(p) => {
                self.todos[p].completed = true;
                assert(self@ =~= with_completed(old(self)@, id as nat));
                true
            },
            None => false,
        }
    }

    /// Takes the first task that carries `id` out of the store and says
    /// whether there was one. The tasks behind it move up by one place.
    pub fn remove(&mut self, id: usize) -> (found: bool)
        ensures
            found == has_id(old(self)@, id as nat),
            final(self)@ == with_removed(old(self)@, id as nat),
            !found ==> final(self)@ == old(self)@,
    {
        match self.position(id) {
            Some(p) => {
                self.todos.remove(p);
                assert(self@ =~= with_removed(old(self)@, id as nat));
                true
            },
            None => false,
        }
    }
}

} // verus!
