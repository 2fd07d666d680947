//! The boundary to the transport layer: request and response objects, the
//! bounds that a request must meet, the operations that the transport layer
//! offers, and the status under which each failure is reported.

pub mod handlers;
pub mod responses;
pub mod translate;
pub mod user;
pub mod validation;
pub mod word_pair;
