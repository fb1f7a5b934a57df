//! A relational-row-to-domain-object mapping layer with a one-to-many
//! assembly step: rows coming back from a SQLite query are decoded into
//! typed records, and decoded child records are grouped by foreign key and
//! attached to their owning parent records.

pub mod db;
pub mod row;
pub mod types;
pub mod workbook;
