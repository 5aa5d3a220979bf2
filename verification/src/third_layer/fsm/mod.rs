//! Runtime of the operating-mode machine: the balance session record and the
//! decisions taken on each action and event.

pub mod domain;
pub mod logic;
