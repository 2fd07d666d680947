//! The services: each composes one repository, and where it needs one a
//! further capability, and classifies every failure into a business error
//! kind at the point of the call.

pub mod translate_service;
pub mod user_service;
pub mod word_pair_service;
