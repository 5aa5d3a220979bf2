//! Rows and results exchanged with the local database.

pub mod domain;
