//! A todo-list service: the record types of its one table, the rules that
//! each request handler applies, and an in-memory table that carries those
//! rules out, with the laws that hold across its operations.

pub mod laws;
pub mod models;
pub mod public_id;
pub mod rules;
pub mod table;
