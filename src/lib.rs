//! A small in-memory SQL database. Parsed statements are validated against a schema and
//! applied to tables: `CREATE TABLE` adds a table, `INSERT` appends rows under uniqueness
//! constraints, and `SELECT`, `UPDATE` and `DELETE` are acknowledged without effect.

pub mod database;
pub mod error;
pub mod execute;
pub mod laws;
pub mod sql_query;
pub mod statement;
pub mod table;
pub mod value;
