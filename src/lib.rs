//! A multi-tenant task tracker's core: account registration and login with
//! stateless bearer tokens, and a todo workflow whose status changes follow a
//! fixed state machine and are reserved to each item's owner.
//!
//! Storage is reached through narrow capability traits whose contracts speak
//! of the records a store holds; [`memory`] gives verified in-memory stores.

pub mod account;
pub mod account_service;
pub mod errors;
pub mod handler;
pub mod jwt;
pub mod memory;
pub mod password;
pub mod todo;
pub mod todo_service;
