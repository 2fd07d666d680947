//! Core of a vocabulary-learning service: user accounts, the word pairs they
//! own, and ad-hoc translation.
//!
//! The crate holds the domain entities with their normalisation rules, the
//! mapping between entities and the rows of the relational store, the
//! storage-agnostic repository interface, credential hashing, the services
//! that compose them and classify every failure into a business error
//! kind, and the operations that the transport layer offers on top of the
//! services. Contracts are stated over the views of the entities and are
//! checked by Verus.

pub mod api;
mod clock;
pub mod domain;
pub mod identity;
pub mod password;
pub mod services;
pub mod storage;
pub mod text;
pub mod traits;
pub mod types;
