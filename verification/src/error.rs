//! What can go wrong at the store, and how a failure that the SQLite driver
//! reports becomes one of the store's own errors.

use vstd::prelude::*;

verus! {

/// The extended result code with which SQLite refuses a row that repeats a
/// value in a `UNIQUE` column.
pub const UNIQUE_CONSTRAINT_CODE: i32 = 2067;

/// The shape of a failure that the driver reported.
#[derive(Debug)]
pub enum FaultKind {
    /// A query that had to yield a row yielded none.
    NoRows,
    /// SQLite itself refused the statement, with this extended result code.
    Engine { extended_code: i32 },
    /// Any other failure of the driver.
    Other,
}

/// A failure that the driver reported, as plain values.
#[derive(Debug)]
pub struct DriverFault {
    pub kind: FaultKind,
    /// The driver's own wording, kept for diagnostics.
    pub message: String,
}

/// The errors of the store.
#[derive(Debug)]
pub enum StoreError {
    /// The store could not be opened, or a statement failed for a reason
    /// that is neither of the two below.
    Storage { message: String },
    /// An insert repeated a title that the table already holds.
    UniqueConstraintViolation,
    /// A lookup by identifier matched no row.
    NotFound,
}

impl DriverFault {
    /// Whether SQLite refused the statement because of a `UNIQUE` column.
    pub open spec fn is_unique_violation(self) -> bool {
        self.kind == (FaultKind::Engine { extended_code: UNIQUE_CONSTRAINT_CODE })
    }
}

impl StoreError {
    /// The error of a failed open, schema statement or listing: always
    /// `Storage`, with the driver's message.
    pub open spec fn general(fault: DriverFault) -> StoreError {
        StoreError::Storage { message: fault.message }
    }

    /// The error of a failed insert: `UniqueConstraintViolation` when SQLite
    /// refused a repeated title, `Storage` otherwise.
    pub open spec fn on_insert(fault: DriverFault) -> StoreError {
        if fault.is_unique_violation() {
            StoreError::UniqueConstraintViolation
        } else {
            StoreError::Storage { message: fault.message }
        }
    }

    /// The error of a failed lookup by identifier: `NotFound` when the query
    /// yielded no row, `Storage` otherwise.
    pub open spec fn on_lookup(fault: DriverFault) -> StoreError {
        if fault.kind is NoRows {
            StoreError::NotFound
        } else {
            StoreError::Storage { message: fault.message }
        }
    }

    /// Turns a failure outside of inserts and lookups into a store error.
    pub fn from_fault(fault: DriverFault) -> (error: StoreError)
        ensures
            error == StoreError::general(fault),
    {
        StoreError::Storage { message: fault.message }
    }

    /// Turns a failure of an insert into a store error.
    pub fn from_insert_fault(fault: DriverFault) -> (error: StoreError)
        ensures
            error == StoreError::on_insert(fault),
    {
        match fault.kind {
            FaultKind::Engine { extended_code } if extended_code == UNIQUE_CONSTRAINT_CODE => {
                StoreError::UniqueConstraintViolation
            },
            _ => StoreError::Storage { message: fault.message },
        }
    }

    /// Turns a failure of a lookup by identifier into a store error.
    pub fn from_lookup_fault(fault: DriverFault) -> (error: StoreError)
        ensures
            error == StoreError::on_lookup(fault),
    {
        match fault.kind {
            FaultKind::NoRows => StoreError::NotFound,
            _ => StoreError::Storage { message: fault.message },
        }
    }
}

} // verus!
