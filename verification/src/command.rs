//! Commands on the store, what carrying one out leads to, and what is then
//! said to the user.

use crate::error::InitializationError;
use crate::listing::listing;
use crate::model::{has_id, next_id, with_added, with_completed, with_removed};
use crate::store::TodoManager;
use crate::task::TodoView;
use crate::text::{decimal, decimal_string, texts};
use vstd::prelude::*;
use vstd::string::*;

verus! {

/// One request of the user.
#[derive(Debug)]
pub enum Command {
    /// Add a task with this description.
    Add { description: String },
    /// Show all tasks.
    List,
    /// Mark the task with this identifier as done.
    Complete { id: usize },
    /// Delete the task with this identifier.
    Remove { id: usize },
}

/// What carrying out a request led to.
#[derive(Debug)]
pub enum Outcome {
    /// A task was added and was given this identifier.
    Added { id: usize },
    /// The tasks were shown on these lines.
    Listed { lines: Vec<String> },
    /// The task with this identifier is now done.
    Completed { id: usize },
    /// The task with this identifier was deleted.
    Removed { id: usize },
    /// No task carries this identifier; nothing was changed.
    NotFound { id: usize },
    /// There was no request; nothing was done.
    NoCommand,
}

/// The stream that a report is written to.
#[derive(Debug, Clone, Copy, PartialEq, Eq, Structural)]
pub enum Channel {
    /// The ordinary output.
    Output,
    /// The error output.
    Error,
}

/// Lines for the user, and the stream they go to.
#[derive(Debug)]
pub struct Report {
    pub channel: Channel,
    pub lines: Vec<String>,
}

/// The task list after the request `command` on the list `s`.
pub open spec fn state_after(s: Seq<TodoView>, command: Option<Command>) -> Seq<TodoView> {
    match command {
        Some(Command::Add { description }) => with_added(s, description@),
        Some(Command::List) => s,
        Some(Command::Complete { id }) => with_completed(s, id as nat),
        Some(Command::Remove { id }) => with_removed(s, id as nat),
        None => s,
    }
}

/// Whether `outcome` is what the request `command` on the list `s` leads to.
pub open spec fn is_outcome_of(s: Seq<TodoView>, command: Option<Command>, outcome: Outcome) -> bool {
    match command {
        Some(Command::Add { description }) => outcome == (Outcome::Added {
            id: next_id(s) as usize,
        }),
        Some(Command::List) => outcome matches Outcome::Listed { lines } && texts(lines@)
            == listing(s),
        Some(Command::Complete { id }) => outcome == if has_id(s, id as nat) {
            Outcome::Completed { id }
        } else {
            Outcome::NotFound { id }
        },
        Some(Command::Remove { id }) => outcome == if has_id(s, id as nat) {
            Outcome::Removed { id }
        } else {
            Outcome::NotFound { id }
        },
        None => outcome == Outcome::NoCommand,
    }
}

/// Whether the request can be carried out: an add needs its identifier to
/// fit the identifier type; every other request can always be carried out.
pub open spec fn can_run(s: Seq<TodoView>, command: Option<Command>) -> bool {
    command matches Some(Command::Add { .. }) ==> next_id(s) <= usize::MAX
}

/// What is said after `outcome`, and where. `failure` is the reason why
/// saving the tasks failed, if it was tried and did fail; it matters only
/// for outcomes that are saved.
pub open spec fn report_of(outcome: Outcome, failure: Option<Seq<char>>) -> (Channel, Seq<Seq<char>>) {
    match outcome {
        Outcome::Added { id } => match failure {
            None => (Channel::Output, seq!["Todo added successfully!"@]),
            Some(reason) => (Channel::Error, seq!["Failed to save todo: "@ + reason]),
        },
        Outcome::Listed { lines } => (Channel::Output, texts(lines@)),
        Outcome::Completed { id } => match failure {
            None => (
                Channel::Output,
                seq!["Todo "@ + decimal(id as nat) + " marked as completed!"@],
            ),
            Some(reason) => (Channel::Error, seq!["Failed to save changes: "@ + reason]),
        },
        Outcome::Removed { id } => match failure {
            None => (
                Channel::Output,
                seq!["Todo "@ + decimal(id as nat) + " removed successfully!"@],
            ),
            Some(reason) => (Channel::Error, seq!["Failed to save changes: "@ + reason]),
        },
        Outcome::NotFound { id } => (
            Channel::Output,
            seq!["Todo with id "@ + decimal(id as nat) + " not found."@],
        ),
        Outcome::NoCommand => (
            Channel::Output,
            seq!["No command specified. Use --help to see available commands."@],
        ),
    }
}

/// What is said when the store could not be opened.
pub open spec fn failure_report_of(error: InitializationError) -> (Channel, Seq<Seq<char>>) {
    (Channel::Error, seq!["Error initializing TodoManager: "@ + error.text()])
}

/// The one-line report `before` + `middle` + `after`.
fn one_line(channel: Channel, before: &str, middle: &str, after: &str) -> (report: Report)
    ensures
        report.channel == channel,
        texts(report.lines@) == seq![before@ + middle@ + after@],
{
    let mut line = String::from_str(before);
    line.append(middle);
    line.append(after);
    let mut lines: Vec<String> = Vec::new();
    lines.push(line);
    assert(texts(lines@) =~= seq![before@ + middle@ + after@]);
    Report { channel, lines }
}

impl TodoManager {
    /// Carries out one request, or none, and says what it led to.
    pub fn run(&mut self, command: Option<Command>) -> (outcome: Outcome)
        requires
            can_run(old(self)@, command),
        ensures
            final(self)@ == state_after(old(self)@, command),
            is_outcome_of(old(self)@, command, outcome),
    {
        match command {
            Some(Command::Add { description }) => {
                let id = self.add(description);
                Outcome::Added { id }
            },
            Some(Command::List) => Outcome::Listed { lines: self.list() },
            Some(Command::Complete { id }) => {
                if self.complete(id) {
                    Outcome::Completed { id }
                } else {
                    Outcome::NotFound { id }
                }
            },
            Some(Command::Remove { id }) => {
                if self.remove(id) {
                    Outcome::Removed { id }
                } else {
                    Outcome::NotFound { id }
                }
            },
            None => Outcome::NoCommand,
        }
    }
}

impl Outcome {
    /// Whether the tasks have to be saved after this outcome: always after
    /// an add, a completion or a removal, even when the completed task was
    /// done before; never otherwise.
    pub fn must_save(&self) -> (save: bool)
        ensures
            save == (self is Added || self is Completed || self is Removed),
    {
        match self {
            Outcome::Added { .. } => true,
            Outcome::Completed { .. } => true,
            Outcome::Removed { .. } => true,
            _ => false,
        }
    }

    /// The lines to show for this outcome. `failure` is `None` when nothing
    /// had to be saved or saving went well, and otherwise the reason why
    /// saving failed.
    pub fn report(self, failure: Option<&str>) -> (report: Report)
        ensures
            (report.channel, texts(report.lines@)) == report_of(
                self,
                (match failure {
                    Some(reason) => Some(reason@),
                    None => None,
                }),
            ),
    {
        proof {
            reveal_strlit("");
        }
        match self {
            Outcome::Added { id } => match failure {
                None => {
                    let r = one_line(Channel::Output, "Todo added successfully!", "", "");
                    assert("Todo added successfully!"@ + ""@ + ""@ =~= "Todo added successfully!"@);
                    r
                },
                Some(reason) => {
                    let r = one_line(Channel::Error, "Failed to save todo: ", reason, "");
                    assert("Failed to save todo: "@ + reason@ + ""@ =~= "Failed to save todo: "@
                        + reason@);
                    r
                },
            },
            Outcome::Listed { lines } => Report { channel: Channel::Output, lines },
            Outcome::Completed { id } => match failure {
                None => {
                    let number = decimal_string(id);
                    one_line(Channel::Output, "Todo ", number.as_str(), " marked as completed!")
                },
                Some(reason) => {
                    let r = one_line(Channel::Error, "Failed to save changes: ", reason, "");
                    assert("Failed to save changes: "@ + reason@ + ""@
                        =~= "Failed to save changes: "@ + reason@);
                    r
                },
            },
            Outcome::Removed { id } => match failure {
                None => {
                    let number = decimal_string(id);
                    one_line(Channel::Output, "Todo ", number.as_str(), " removed successfully!")
                },
                Some(reason) => {
                    let r = one_line(Channel::Error, "Failed to save changes: ", reason, "");
                    assert("Failed to save changes: "@ + reason@ + ""@
                        =~= "Failed to save changes: "@ + reason@);
                    r
                },
            },
            Outcome::NotFound { id } => {
                let number = decimal_string(id);
                one_line(Channel::Output, "Todo with id ", number.as_str(), " not found.")
            },
            Outcome::NoCommand => {
                let r = one_line(
                    Channel::Output,
                    "No command specified. Use --help to see available commands.",
                    "",
                    "",
                );
                assert("No command specified. Use --help to see available commands."@ + ""@ + ""@
                    =~= "No command specified. Use --help to see available commands."@);
                r
            },
        }
    }
}

impl InitializationError {
    /// The line to show when the store could not be opened.
    pub fn report(&self) -> (report: Report)
        ensures
            (report.channel, texts(report.lines@)) == failure_report_of(*self),
    {
        proof {
            reveal_strlit("");
        }
        let words = self.message();
        let r = one_line(Channel::Error, "Error initializing TodoManager: ", words.as_str(), "");
        assert("Error initializing TodoManager: "@ + words@ + ""@
            =~= "Error initializing TodoManager: "@ + words@);
        r
    }
}

} // verus!
