//! Blog posts: the entity and its rules, the store's interface with a store
//! in memory, the use cases, the statements that a relational store is sent,
//! and the answers given to callers.

pub mod error;
pub mod laws;
pub mod memory;
pub mod post;
pub mod relational;
pub mod repository;
pub mod service;
pub mod table;
pub mod web;
