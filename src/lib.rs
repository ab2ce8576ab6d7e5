//! Core of a small course platform: the entity model, credential hashing,
//! a transactional relational store, and the request handlers built on it.

pub mod entities;
pub mod errors;
pub mod handlers;
pub mod laws;
pub mod store;
pub mod users;
pub mod courses;
pub mod credentials;
pub mod lectures;
pub mod response;
