//! The task record, the only entity of the store.

use vstd::prelude::*;
use vstd::std_specs::cmp::PartialEqSpec;
use crate::text::{debug_quoted, decimal, decimal_text, quote};

verus! {

/// The columns of one row of the table, in the order of the schema:
/// identifier, title, description, completion flag.
pub type RowValues = (i64, String, String, bool);

/// A task: a title, a description and a completion flag, under the
/// identifier that the store assigned to it.
///
/// Two records are equal when they agree on identifier, title and
/// description. The completion flag takes no part in equality: a task that
/// has been ticked off is still the same task.
#[derive(Debug)]
pub struct Todo {
    /// Primary key in the store; `0` until the record has been saved.
    pub id: i64,
    /// Title of the task, unique across the store.
    pub title: String,
    /// What the task is about; may be empty.
    pub description: String,
    /// Whether the task is done.
    pub complete: bool,
}

/// The line that heads the printed form of a record, and the label of its
/// second line, around the four parts that vary.
pub open spec fn display_layout(
    title: Seq<char>,
    id: int,
    complete: bool,
    quoted_description: Seq<char>,
) -> Seq<char> {
    title + " (#"@ + decimal_text(id) + " - "@ + (if complete {
        ""@
    } else {
        "not "@
    }) + "completed):\n    Description: "@ + quoted_description
}

impl Todo {
    /// The record that a row of the table stands for: the columns in the
    /// order identifier, title, description, completion flag.
    pub open spec fn of_row(row: RowValues) -> Todo {
        Todo { id: row.0, title: row.1, description: row.2, complete: row.3 }
    }

    /// The row that holds this record: its four values in the order of the
    /// table's columns.
    pub open spec fn row(self) -> RowValues {
        (self.id, self.title, self.description, self.complete)
    }

    /// This record under the identifier `id`.
    pub open spec fn with_id(self, id: i64) -> Todo {
        Todo { id, title: self.title, description: self.description, complete: self.complete }
    }

    /// The printed form of the record.
    pub open spec fn display_spec(self) -> Seq<char> {
        display_layout(self.title@, self.id as int, self.complete, debug_quoted(self.description@))
    }

    /// A record that has not been saved yet: it carries the given values and
    /// the identifier `0`.
    pub fn new(title: &str, description: &str, complete: bool) -> (todo: Todo)
        ensures
            todo.id == 0,
            todo.title@ == title@,
            todo.description@ == description@,
            todo.complete == complete,
    {
        Todo { id: 0, title: title.to_owned(), description: description.to_owned(), complete }
    }

    /// Builds the record that a row of the table stands for.
    pub fn from_row(row: RowValues) -> (todo: Todo)
        ensures
            todo == Todo::of_row(row),
    {
        Todo { id: row.0, title: row.1, description: row.2, complete: row.3 }
    }

    /// The printed form of the record around an already quoted description:
    /// the title, then in parentheses the identifier and whether the task is
    /// completed, then on an indented second line the description.
    pub fn display_with(&self, quoted_description: &str) -> (text: String)
        ensures
            text@ == display_layout(
                self.title@,
                self.id as int,
                self.complete,
                quoted_description@,
            ),
    {
        let number = decimal(self.id);
        let mut text = self.title.clone();
        text.append(" (#");
        text.append(number.as_str());
        text.append(" - ");
        if self.complete {
            text.append("");
        } else {
            text.append("not ");
        }
        text.append("completed):\n    Description: ");
        text.append(quoted_description);
        text
    }

    /// The printed form of the record, with the description quoted and
    /// escaped as `{:?}` prints a string.
    pub fn display_text(&self) -> (text: String)
        ensures
            text@ == self.display_spec(),
    {
        let quoted = quote(self.description.as_str());
        self.display_with(quoted.as_str())
    }
}

impl PartialEq for Todo {
    fn eq(&self, other: &Self) -> (same: bool) {
        self.id == other.id && self.title == other.title && self.description == other.description
    }
}

impl vstd::std_specs::cmp::PartialEqSpecImpl for Todo {
    open spec fn obeys_eq_spec() -> bool {
        true
    }

    open spec fn eq_spec(&self, other: &Self) -> bool {
        self.id == other.id && self.title@ == other.title@ && self.description@
            == other.description@
    }
}

/// A record and the row that holds it determine each other: reading the row
/// of a record gives the record back, and the row of what was read from a
/// row is that row.
pub proof fn law_row_round_trip(todo: Todo, row: RowValues)
    ensures
        Todo::of_row(todo.row()) == todo,
        Todo::of_row(row).row() == row,
{
}

/// Equality of records is an equivalence that looks at identifier, title
/// and description only: two records that differ in nothing but the
/// completion flag are equal.
pub proof fn law_equality(a: Todo, b: Todo, c: Todo)
    ensures
        a.eq_spec(&a),
        a.eq_spec(&b) == b.eq_spec(&a),
        a.eq_spec(&b) && b.eq_spec(&c) ==> a.eq_spec(&c),
        a.eq_spec(
            &(Todo { id: a.id, title: a.title, description: a.description, complete: !a.complete }),
        ),
{
}

} // verus!
