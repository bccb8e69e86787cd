//! A small to-do store: task records kept in one SQLite table, with contracts
//! on everything the library itself decides.

pub mod command;
pub mod driver;
pub mod error;
pub mod record;
pub mod store;
pub mod text;

pub use command::{Action, Command};
pub use error::{DriverFault, FaultKind, StoreError};
pub use record::{RowValues, Todo};
pub use store::{get_all_todos, get_connection, initialize_tables};
