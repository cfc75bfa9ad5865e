//! What the library knows of the persistent store: the table names, the
//! declarative query strings, and the plain shapes of the rows that come
//! back. The store itself is an outside collaborator reached only by the
//! surrounding application; the library's decision functions take the rows
//! it returns as plain values.

pub mod config;
pub mod defs;
pub mod table;
