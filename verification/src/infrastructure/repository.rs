//! How failures of the PostgreSQL store become domain errors.

use vstd::prelude::*;

use crate::domain::error::DomainError;

verus! {

/// A failure of the store, as the database driver reports it.
#[derive(Debug)]
pub enum StoreFailure {
    /// The pool timed out or is closed, I/O or TLS failed, or a worker
    /// crashed; with the driver's text of the failure.
    Unavailable { text: String },
    /// A query that must return a row returned none.
    RowNotFound,
    /// The database refused a statement, with its SQLSTATE code if it gave
    /// one, and its message.
    Database { code: Option<String>, message: String },
    /// Any other failure, with the driver's text of it.
    Other { text: String },
}

/// Whether an SQLSTATE code tells of a concurrency conflict
/// (serialization failure, deadlock, lock not available).
pub open spec fn is_concurrency_code(code: Seq<char>) -> bool {
    code == "40001"@ || code == "40P01"@ || code == "55P03"@
}

/// Whether an SQLSTATE code tells of a violated constraint (unique,
/// exclusion).
pub open spec fn is_constraint_code(code: Seq<char>) -> bool {
    code == "23505"@ || code == "23P01"@
}

/// The domain error of a store failure: unavailability, conflicts of
/// concurrency or constraints, and corruption for everything else.
pub open spec fn store_error_holds(f: StoreFailure, e: DomainError) -> bool {
    match f {
        StoreFailure::Unavailable { text } => e matches DomainError::PersistenceUnavailable {
            message,
        } && message@ == "PostgreSQL 不可用: "@ + text@,
        StoreFailure::RowNotFound => e matches DomainError::PersistenceCorrupted { message }
            && message@ == "在非预期上下文中未找到记录"@,
        StoreFailure::Database { code, message: m } => match code {
            Some(c) => if is_concurrency_code(c@) {
                e matches DomainError::PersistenceConflict { message } && message@
                    == "PostgreSQL 并发冲突("@ + c@ + "): "@ + m@
            } else if is_constraint_code(c@) {
                e matches DomainError::PersistenceConflict { message } && message@
                    == "PostgreSQL 约束冲突("@ + c@ + "): "@ + m@
            } else {
                e matches DomainError::PersistenceCorrupted { message } && message@
                    == "PostgreSQL 数据库错误("@ + c@ + "): "@ + m@
            },
            None => e matches DomainError::PersistenceCorrupted { message } && message@
                == "PostgreSQL 数据库错误: "@ + m@,
        },
        StoreFailure::Other { text } => e matches DomainError::PersistenceCorrupted { message }
            && message@ == "PostgreSQL 未预期错误: "@ + text@,
    }
}

fn code_is(code: &str, expected: &str) -> (r: bool)
    ensures
        r == (code@ == expected@),
{
    crate::text::str_equal(code, expected)
}

/// Turns a store failure into a domain error.
pub fn map_store_failure(f: StoreFailure) -> (r: DomainError)
    ensures
        store_error_holds(f, r),
{
    match f {
        StoreFailure::Unavailable { text } => {
            let mut message = "PostgreSQL 不可用: ".to_string();
            message.append(text.as_str());
            DomainError::PersistenceUnavailable { message }
        },
        StoreFailure::RowNotFound => DomainError::PersistenceCorrupted {
            message: "在非预期上下文中未找到记录".to_string(),
        },
        StoreFailure::Database { code, message: m } => match code {
            Some(c) => {
                let concurrency = code_is(c.as_str(), "40001") || code_is(c.as_str(), "40P01")
                    || code_is(c.as_str(), "55P03");
                let constraint = code_is(c.as_str(), "23505") || code_is(c.as_str(), "23P01");
                let mut message = if concurrency {
                    "PostgreSQL 并发冲突(".to_string()
                } else if constraint {
                    "PostgreSQL 约束冲突(".to_string()
                } else {
                    "PostgreSQL 数据库错误(".to_string()
                };
                message.append(c.as_str());
                message.append("): ");
                message.append(m.as_str());
                if concurrency || constraint {
                    DomainError::PersistenceConflict { message }
                } else {
                    DomainError::PersistenceCorrupted { message }
                }
            },
            None => {
                let mut message = "PostgreSQL 数据库错误: ".to_string();
                message.append(m.as_str());
                DomainError::PersistenceCorrupted { message }
            },
        },
        StoreFailure::Other { text } => {
            let mut message = "PostgreSQL 未预期错误: ".to_string();
            message.append(text.as_str());
            DomainError::PersistenceCorrupted { message }
        },
    }
}

} // verus!
