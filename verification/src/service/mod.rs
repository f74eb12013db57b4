//! CRUD services: the SQL that each operation sends to the database.

pub mod base;
pub mod backend;
