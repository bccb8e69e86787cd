//! The storage accessor: opening a database, creating the table, and the
//! three operations on task records.
//!
//! What SQLite answers depends on the database behind the connection, so
//! each operation is split in two. One function makes the call; its contract
//! holds whatever the driver answered. A second function takes the driver's
//! answer as a plain value and says exactly what the operation returns for
//! it.

use vstd::prelude::*;
use vstd::std_specs::cmp::PartialEqSpec;
use crate::driver;
use crate::error::{DriverFault, StoreError};
use crate::record::{RowValues, Todo};
use crate::text::same_text;

verus! {

/// The location that stands for a transient database in memory. Any other
/// location names a file.
pub const MEMORY_LOCATION: &'static str = ":memory:";

/// Creates the table of task records unless it exists.
pub const CREATE_TABLE_SQL: &'static str =
    "CREATE TABLE IF NOT EXISTS todos(
                    id INTEGER PRIMARY KEY AUTOINCREMENT,
                    title TEXT NOT NULL UNIQUE,
                    description TEXT,
                    complete BOOLEAN DEFAULT false
                );";

/// Inserts one record; the identifier is left to SQLite.
pub const INSERT_SQL: &'static str = "INSERT INTO todos(title, description, complete) VALUES(?1, ?2, ?3);";

/// Selects the record with a given identifier.
pub const SELECT_ONE_SQL: &'static str = "SELECT id, title, description, complete FROM todos WHERE id = ?";

/// Selects every record, in no stated order.
pub const SELECT_ALL_SQL: &'static str = "SELECT id, title, description, complete FROM todos";

/// Whether a location cannot name a database: it holds a NUL character,
/// which no file name and no C string can hold.
pub open spec fn malformed_location(path: Seq<char>) -> bool {
    path.contains('\0')
}

/// The reserved location is well formed.
proof fn lemma_memory_location_is_well_formed()
    ensures
        !malformed_location(MEMORY_LOCATION@),
{
    reveal_strlit(":memory:");
    assert(MEMORY_LOCATION@.len() == 8);
    assert forall|i: int| 0 <= i < MEMORY_LOCATION@.len() implies MEMORY_LOCATION@[i] != '\0' by {
        assert(MEMORY_LOCATION@[0] == ':');
        assert(MEMORY_LOCATION@[1] == 'm');
        assert(MEMORY_LOCATION@[2] == 'e');
        assert(MEMORY_LOCATION@[3] == 'm');
        assert(MEMORY_LOCATION@[4] == 'o');
        assert(MEMORY_LOCATION@[5] == 'r');
        assert(MEMORY_LOCATION@[6] == 'y');
        assert(MEMORY_LOCATION@[7] == ':');
    }
}

/// Whether `path` is the reserved location of a database in memory. The
/// comparison is exact: a location that merely resembles the reserved one
/// names a file.
pub fn is_memory_location(path: &str) -> (memory: bool)
    ensures
        memory == (path@ == MEMORY_LOCATION@),
{
    same_text(path, MEMORY_LOCATION)
}

/// The driver's failure as plain values.
fn fault_of(error: &rusqlite::Error) -> DriverFault {
    DriverFault { kind: driver::fault_kind(error), message: driver::fault_message(error) }
}

/// The driver's answer with its failure, if any, as plain values.
fn plain<T>(answer: Result<T, rusqlite::Error>) -> (outcome: Result<T, DriverFault>)
    ensures
        answer is Ok ==> outcome == Ok::<T, DriverFault>(answer->Ok_0),
        answer is Err ==> outcome is Err,
{
    match answer {
        Ok(value) => Ok(value),
        Err(error) => Err(fault_of(&error)),
    }
}

/// What opening a database returns for the driver's answer: the connection,
/// or a `Storage` error with the driver's message.
pub fn opened<T>(outcome: Result<T, DriverFault>) -> (res: Result<T, StoreError>)
    ensures
        res == match outcome {
            Ok(value) => Ok::<T, StoreError>(value),
            Err(fault) => Err(StoreError::general(fault)),
        },
{
    match outcome {
        Ok(value) => Ok(value),
        Err(fault) => Err(StoreError::from_fault(fault)),
    }
}

/// What creating the table returns for the driver's answer: nothing, or a
/// `Storage` error with the driver's message. The number of changed rows
/// that the driver reports is dropped.
pub fn initialized(outcome: Result<usize, DriverFault>) -> (res: Result<(), StoreError>)
    ensures
        res == match outcome {
            Ok(_) => Ok::<(), StoreError>(()),
            Err(fault) => Err(StoreError::general(fault)),
        },
{
    match outcome {
        Ok(_) => Ok(()),
        Err(fault) => Err(StoreError::from_fault(fault)),
    }
}

/// Opens the database at `path`: a transient one in memory when `path` is
/// the reserved location, else the file of that name, which is created if
/// it is missing. A malformed location is refused, and every failure comes
/// back as a `Storage` error. Whether a well-formed location can be opened
/// is the driver's to say.
pub fn get_connection(path: &str) -> (res: Result<rusqlite::Connection, StoreError>)
    ensures
        malformed_location(path@) ==> res is Err,
        res is Err ==> res->Err_0 is Storage,
{
    proof {
        lemma_memory_location_is_well_formed();
    }
    let answer = if is_memory_location(path) {
        driver::open_in_memory()
    } else {
        driver::open_file(path)
    };
    opened(plain(answer))
}

/// Makes sure that the table of task records exists. A failure of the
/// driver comes back as a `Storage` error.
pub fn initialize_tables(conn: &rusqlite::Connection) -> (res: Result<(), StoreError>)
    ensures
        res is Err ==> res->Err_0 is Storage,
{
    initialized(plain(driver::execute(conn, CREATE_TABLE_SQL)))
}

impl Todo {
    /// What saving `todo` returns for the driver's answer: the record under
    /// the identifier that SQLite assigned, or the error of the failed
    /// insert.
    pub open spec fn saved_spec(todo: Todo, outcome: Result<i64, DriverFault>) -> Result<
        Todo,
        StoreError,
    > {
        match outcome {
            Ok(id) => Ok(todo.with_id(id)),
            Err(fault) => Err(StoreError::on_insert(fault)),
        }
    }

    /// What a lookup by identifier returns for the driver's answer: the
    /// record of the row, or the error of the failed lookup.
    pub open spec fn found_spec(outcome: Result<RowValues, DriverFault>) -> Result<
        Todo,
        StoreError,
    > {
        match outcome {
            Ok(row) => Ok(Todo::of_row(row)),
            Err(fault) => Err(StoreError::on_lookup(fault)),
        }
    }

    /// Finishes a save: turns the driver's answer to the insert into what
    /// `save` returns.
    pub fn saved(self, outcome: Result<i64, DriverFault>) -> (res: Result<Todo, StoreError>)
        ensures
            res == Todo::saved_spec(self, outcome),
    {
        match outcome {
            Ok(id) => Ok(
                Todo {
                    id,
                    title: self.title,
                    description: self.description,
                    complete: self.complete,
                },
            ),
            Err(fault) => Err(StoreError::from_insert_fault(fault)),
        }
    }

    /// Finishes a lookup: turns the driver's answer to the query into what
    /// `from_id` returns.
    pub fn found(outcome: Result<RowValues, DriverFault>) -> (res: Result<Todo, StoreError>)
        ensures
            res == Todo::found_spec(outcome),
    {
        match outcome {
            Ok(row) => Ok(Todo::from_row(row)),
            Err(fault) => Err(StoreError::from_lookup_fault(fault)),
        }
    }

    /// Inserts the record as a new row and returns it under the identifier
    /// that SQLite assigned. Whatever the driver answers, a returned record
    /// carries the title, description and completion flag of this one, and a
    /// failure is `UniqueConstraintViolation` or `Storage`.
    pub fn save(self, conn: &rusqlite::Connection) -> (res: Result<Todo, StoreError>)
        ensures
            match res {
                Ok(todo) => todo == self.with_id(todo.id),
                Err(error) => !(error is NotFound),
            },
    {
        let answer = match driver::prepare(conn, INSERT_SQL) {
            Ok(mut stmt) => driver::insert(
                &mut stmt,
                self.title.as_str(),
                self.description.as_str(),
                self.complete,
            ),
            Err(error) => Err(error),
        };
        self.saved(plain(answer))
    }

    /// Fetches the record with the identifier `id`. A failure is `NotFound`
    /// or `Storage`.
    pub fn from_id(id: i64, conn: &rusqlite::Connection) -> (res: Result<Todo, StoreError>)
        ensures
            res is Err ==> !(res->Err_0 is UniqueConstraintViolation),
    {
        Todo::found(plain(driver::query_row(conn, SELECT_ONE_SQL, id)))
    }
}

/// Saving and reading back agree. When the insert of `todo` is answered
/// with the identifier `id`, and the lookup of `id` is answered with the row
/// that holds the saved record, the lookup returns a record equal to the one
/// that the insert returned, under the same identifier, with the same title
/// and the same description.
pub proof fn law_saved_record_reads_back(todo: Todo, id: i64)
    ensures
        Todo::saved_spec(todo, Ok(id)) == Ok::<Todo, StoreError>(todo.with_id(id)),
        Todo::found_spec(Ok(todo.with_id(id).row())) == Todo::saved_spec(todo, Ok(id)),
        Todo::found_spec(Ok(todo.with_id(id).row()))->Ok_0.eq_spec(&todo.with_id(id)),
        todo.with_id(id).id == id,
        todo.with_id(id).title == todo.title,
        todo.with_id(id).description == todo.description,
{
}

/// An insert that SQLite refuses for a repeated title returns
/// `UniqueConstraintViolation` and no record, and a lookup that yields no
/// row returns `NotFound`, whatever else the driver says of the failure.
pub proof fn law_refusals(todo: Todo, fault: DriverFault)
    ensures
        fault.is_unique_violation() ==> Todo::saved_spec(todo, Err(fault)) == Err::<
            Todo,
            StoreError,
        >(StoreError::UniqueConstraintViolation),
        fault.kind is NoRows ==> Todo::found_spec(Err(fault)) == Err::<Todo, StoreError>(
            StoreError::NotFound,
        ),
{
}

/// Whether every row up to `count` was read without a failure.
pub open spec fn all_read(rows: Seq<Result<RowValues, DriverFault>>, count: int) -> bool {
    forall|i: int| 0 <= i < count ==> (#[trigger] rows[i]) is Ok
}

/// What a listing returns for the rows that the driver handed out: when
/// every row was read, the records of the rows, as many as there are rows
/// and in their order; otherwise a `Storage` error for the first row that
/// could not be read.
pub fn collect_todos(rows: Vec<Result<RowValues, DriverFault>>) -> (res: Result<
    Vec<Todo>,
    StoreError,
>)
    ensures
        match res {
            Ok(todos) => {
                &&& all_read(rows@, rows@.len() as int)
                &&& todos@.len() == rows@.len()
                &&& forall|i: int|
                    0 <= i < rows@.len() ==> (#[trigger] todos@[i]) == Todo::of_row(rows@[i]->Ok_0)
            },
            Err(error) => exists|first: int|
                {
                    &&& 0 <= first < rows@.len()
                    &&& all_read(rows@, first)
                    &&& (#[trigger] rows@[first]) is Err
                    &&& error == StoreError::general(rows@[first]->Err_0)
                },
        },
{
    let ghost all = rows@;
    let mut todos: Vec<Todo> = Vec::new();
    for row in iter: rows
        invariant
            iter.seq() == all,
            todos@.len() == iter.index(),
            all_read(all, iter.index() as int),
            forall|i: int|
                0 <= i < iter.index() ==> (#[trigger] todos@[i]) == Todo::of_row(all[i]->Ok_0),
    {
        match row {
            Ok(values) => {
                todos.push(Todo::from_row(values));
            },
            Err(fault) => {
                return Err(StoreError::from_fault(fault));
            },
        }
    }
    Ok(todos)
}

/// The rows that the driver handed out, each failure as plain values.
fn plain_rows(answers: Vec<Result<RowValues, rusqlite::Error>>) -> (rows: Vec<
    Result<RowValues, DriverFault>,
>)
    ensures
        rows@.len() == answers@.len(),
        forall|i: int|
            0 <= i < answers@.len() && (#[trigger] answers@[i]) is Ok ==> rows@[i] == Ok::<
                RowValues,
                DriverFault,
            >(answers@[i]->Ok_0),
        forall|i: int| 0 <= i < answers@.len() && (#[trigger] answers@[i]) is Err ==> rows@[i] is Err,
{
    let ghost all = answers@;
    let mut rows: Vec<Result<RowValues, DriverFault>> = Vec::new();
    for answer in iter: answers
        invariant
            iter.seq() == all,
            rows@.len() == iter.index(),
            forall|i: int|
                0 <= i < iter.index() && (#[trigger] all[i]) is Ok ==> rows@[i] == Ok::<
                    RowValues,
                    DriverFault,
                >(all[i]->Ok_0),
            forall|i: int| 0 <= i < iter.index() && (#[trigger] all[i]) is Err ==> rows@[i] is Err,
    {
        rows.push(plain(answer));
    }
    rows
}

/// Fetches every record of the table, in the order in which SQLite hands
/// the rows out. A failure of the driver, at the statement or at any row,
/// comes back as a `Storage` error.
pub fn get_all_todos(conn: &rusqlite::Connection) -> (res: Result<Vec<Todo>, StoreError>)
    ensures
        res is Err ==> res->Err_0 is Storage,
{
    let answer = match driver::prepare(conn, SELECT_ALL_SQL) {
        Ok(mut stmt) => driver::query_rows(&mut stmt),
        Err(error) => Err(error),
    };
    match plain(answer) {
        Ok(answers) => collect_todos(plain_rows(answers)),
        Err(fault) => Err(StoreError::from_fault(fault)),
    }
}

} // verus!
