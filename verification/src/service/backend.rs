//! The database-specific services: each insists on its own database backend.

use vstd::prelude::*;
use crate::constant::DbType;
use crate::error::CoolError;

verus! {

/// The error a MySQL or Postgres service gives on another backend.
pub open spec fn wrong_backend_text(expected: DbType) -> Seq<char> {
    if expected == DbType::Mysql {
        "当前连接不是 MySQL 后端"@
    } else {
        "当前连接不是 Postgres 后端"@
    }
}

/// Checks that a connection's backend is the one a MySQL or Postgres service
/// is for.
pub fn check_backend(actual: DbType, expected: DbType) -> (r: Result<(), CoolError>)
    requires
        expected != DbType::Sqlite,
    ensures
        actual == expected ==> r is Ok,
        actual != expected ==> (r matches Err(CoolError::Comm(m)) && m@ == wrong_backend_text(expected)),
{
    let same = match (actual, expected) {
        (DbType::Mysql, DbType::Mysql) => true,
        (DbType::Postgres, DbType::Postgres) => true,
        (DbType::Sqlite, DbType::Sqlite) => true,
        _ => false,
    };
    if same {
        Ok(())
    } else {
        match expected {
            DbType::Mysql => Err(CoolError::comm("当前连接不是 MySQL 后端")),
            _ => Err(CoolError::comm("当前连接不是 Postgres 后端")),
        }
    }
}

} // verus!
