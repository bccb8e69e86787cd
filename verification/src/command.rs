//! The command dispatcher's decisions and the text of its reports. Reading
//! the command line and the terminal, and printing, are left to the caller.

use vstd::prelude::*;
use crate::error::StoreError;
use crate::record::Todo;
use crate::text::{decimal, decimal_text, trim, trimmed};

verus! {

/// A parsed command line.
#[derive(Debug)]
pub enum Command {
    /// `new [title]`: create a task, under this title if one was given.
    New { title: Option<String> },
    /// `get`: show the task with this identifier, or every task.
    Get { id: Option<i64>, all: bool },
}

/// What the dispatcher does for a command.
#[derive(Debug)]
pub enum Action {
    /// Ask for what is missing, then create a task. The description is
    /// always asked for, the title only when none was given.
    Create { title: Option<String> },
    /// Fetch and print one task.
    ShowOne { id: i64 },
    /// Fetch and print every task.
    ShowAll,
}

/// The rule of the dispatcher: `new` creates; `get` with an identifier shows
/// that task, whether or not all were asked for; `get` without one shows
/// every task.
pub open spec fn planned(command: Command) -> Action {
    match command {
        Command::New { title } => Action::Create { title },
        Command::Get { id: Some(id), all: _ } => Action::ShowOne { id },
        Command::Get { id: None, all: _ } => Action::ShowAll,
    }
}

/// The line that heads the report of a created task.
pub const CREATED_HEADING: &'static str = "Created new todo:";

/// The rule drawn above and below a created task.
pub const RULE: &'static str = "===========================================";

/// The report of a created task around its printed form: the heading, then
/// the printed form between two rules, one line each.
pub open spec fn creation_layout(display: Seq<char>) -> Seq<char> {
    CREATED_HEADING@ + "\n"@ + RULE@ + "\n"@ + display + "\n"@ + RULE@
}

/// The message for a lookup that yielded no task.
pub open spec fn not_found_layout(id: int) -> Seq<char> {
    "Could not find any todo with id: "@ + decimal_text(id)
}

/// Decides what to do for a command.
pub fn plan(command: Command) -> (action: Action)
    ensures
        action == planned(command),
{
    match command {
        Command::New { title } => Action::Create { title },
        Command::Get { id, all: _ } => match id {
            Some(id) => Action::ShowOne { id },
            None => Action::ShowAll,
        },
    }
}

/// The task that `new` creates from what the user typed: title and
/// description without the white space around them, not yet completed and
/// not yet saved.
pub fn draft(title_input: &str, description_input: &str) -> (todo: Todo)
    ensures
        todo.id == 0,
        todo.title@ == trimmed(title_input@),
        todo.description@ == trimmed(description_input@),
        !todo.complete,
{
    Todo::new(trim(title_input), trim(description_input), false)
}

/// The report of a created task, around its printed form.
pub fn creation_report(display: &str) -> (text: String)
    ensures
        text@ == creation_layout(display@),
{
    let mut text = String::from_str(CREATED_HEADING);
    text.append("\n");
    text.append(RULE);
    text.append("\n");
    text.append(display);
    text.append("\n");
    text.append(RULE);
    text
}

/// The message for a lookup by `id` that yielded no task.
pub fn not_found_message(id: i64) -> (text: String)
    ensures
        text@ == not_found_layout(id as int),
{
    let number = decimal(id);
    String::from_str("Could not find any todo with id: ").concat(number.as_str())
}

/// What `get` with an identifier prints: the task, or for any failure of
/// the lookup the message that no task was found.
pub fn lookup_report(id: i64, outcome: &Result<Todo, StoreError>) -> (text: String)
    ensures
        text@ == match *outcome {
            Ok(todo) => todo.display_spec(),
            Err(_) => not_found_layout(id as int),
        },
{
    match outcome {
        Ok(todo) => todo.display_text(),
        Err(_) => not_found_message(id),
    }
}

/// What `get` without an identifier prints: the printed form of every task,
/// one entry each, in the order of `todos`.
pub fn listing(todos: &Vec<Todo>) -> (lines: Vec<String>)
    ensures
        lines@.len() == todos@.len(),
        forall|i: int| 0 <= i < todos@.len() ==> (#[trigger] lines@[i])@ == todos@[i].display_spec(),
{
    let mut lines: Vec<String> = Vec::new();
    let mut at: usize = 0;
    while at < todos.len()
        invariant
            at <= todos@.len(),
            lines@.len() == at,
            forall|i: int| 0 <= i < at ==> (#[trigger] lines@[i])@ == todos@[i].display_spec(),
        decreases todos@.len() - at,
    {
        lines.push(todos[at].display_text());
        at += 1;
    }
    lines
}

} // verus!
