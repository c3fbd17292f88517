//! Interactive construction of a SQL `SELECT` statement: the state that a
//! terminal front end edits, the transitions that keys trigger on it, and the
//! text that is produced from it.

pub mod text;
pub mod flags;
pub mod model;
pub mod sql;
pub mod schema;
pub mod app;
pub mod edit;
pub mod query;
pub mod screen;
pub mod keys;
pub mod laws;
