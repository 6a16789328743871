//! The table that shows the tasks: a heading, a rule, and one row per task.

use crate::store::TodoManager;
use crate::task::{views, TodoView};
use crate::text::{dashes, decimal, decimal_string, fill, pad_right, pad_right_string, texts};
use vstd::prelude::*;
use vstd::string::*;

verus! {

/// Width of the identifier column, in characters.
pub const ID_WIDTH: usize = 5;

/// Width of the status column, in characters.
pub const STATUS_WIDTH: usize = 10;

/// Length of the rule under the heading, in characters.
pub const RULE_WIDTH: usize = 30;

/// One line of the table: the first two cells left-aligned in their columns,
/// the third as it is, with a single space between neighbours.
pub open spec fn columns(first: Seq<char>, second: Seq<char>, third: Seq<char>) -> Seq<char> {
    pad_right(first, ID_WIDTH as nat) + seq![' '] + pad_right(second, STATUS_WIDTH as nat)
        + seq![' '] + third
}

/// The marker that shows whether a task is done.
pub open spec fn status_marker(completed: bool) -> Seq<char> {
    if completed {
        "[x]"@
    } else {
        "[ ]"@
    }
}

/// The heading of the table.
pub open spec fn header() -> Seq<char> {
    columns("ID"@, "Status"@, "Description"@)
}

/// The rule under the heading.
pub open spec fn rule() -> Seq<char> {
    fill('-', RULE_WIDTH as nat)
}

/// The row that shows the task `t`.
pub open spec fn row(t: TodoView) -> Seq<char> {
    columns(decimal(t.id), status_marker(t.completed), t.description)
}

/// The rows of the tasks of `s`, in order.
pub open spec fn rows(s: Seq<TodoView>) -> Seq<Seq<char>> {
    Seq::new(s.len(), |i: int| row(s[i]))
}

/// What is shown for the list `s`: a single notice when there are no tasks,
/// otherwise the heading, the rule and the rows.
pub open spec fn listing(s: Seq<TodoView>) -> Seq<Seq<char>> {
    if s.len() == 0 {
        seq!["No todos found."@]
    } else {
        seq![header(), rule()] + rows(s)
    }
}

/// Lays three cells out as one line of the table.
pub fn format_columns(first: &str, second: &str, third: &str) -> (line: String)
    ensures
        line@ == columns(first@, second@, third@),
{
    proof {
        reveal_strlit(" ");
    }
    let mut line = pad_right_string(first, ID_WIDTH);
    line.append(" ");
    let cell = pad_right_string(second, STATUS_WIDTH);
    line.append(cell.as_str());
    line.append(" ");
    line.append(third);
    assert(line@ =~= columns(first@, second@, third@));
    line
}

impl TodoManager {
    /// The lines that show the store, top to bottom. The store is not changed.
    pub fn list(&self) -> (lines: Vec<String>)
        ensures
            texts(lines@) == listing(self@),
    {
        let todos = self.todos();
        let mut lines: Vec<String> = Vec::new();
        if todos.len() == 0 {
            lines.push(String::from_str("No todos found."));
            assert(texts(lines@) =~= listing(self@));
            return lines;
        }
        lines.push(format_columns("ID", "Status", "Description"));
        lines.push(dashes(RULE_WIDTH));
        let mut i: usize = 0;
        while i < todos.len()
            invariant
                i <= todos.len(),
                views(todos@) == self@,
                texts(lines@) == seq![header(), rule()] + rows(self@.take(i as int)),
            decreases todos.len() - i,
        {
            let todo = &todos[i];
            let id_text = decimal_string(todo.id);
            let status: &str = if todo.completed {
                "[x]"
            } else {
                "[ ]"
            };
            let line = format_columns(id_text.as_str(), status, todo.description.as_str());
            proof {
                assert(todo@ == self@[i as int]);
                assert(line@ == row(self@[i as int]));
                let before = rows(self@.take(i as int));
                let after = rows(self@.take(i + 1));
                assert(after =~= before.push(row(self@[i as int])));
            }
            let ghost shown = texts(lines@);
            lines.push(line);
            i = i + 1;
            assert(texts(lines@) =~= shown.push(line@));
        }
        assert(self@.take(i as int) =~= self@);
        lines
    }
}

} // verus!
