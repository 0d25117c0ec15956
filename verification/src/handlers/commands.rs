//! Decisions of the handlers that change what is stored.

pub mod create;
pub mod delete;
pub mod update;
