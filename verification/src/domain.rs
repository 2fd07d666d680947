//! The domain objects that the services work on.

pub mod translate;
pub mod user;
pub mod word_pair;
