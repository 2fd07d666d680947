//! What stands between the domain and the relational store: the rows, the
//! conversion between a domain timestamp and a stored one, and the
//! classification of what the store reports.

pub mod convert;
pub mod entities;
pub mod failure;
pub mod rows;
