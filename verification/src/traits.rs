//! The capabilities that the services consume: storage, credential hashing
//! and translation. Each is an interface for the embedding program to
//! implement; none of their methods promises anything of its result, so the
//! services are verified for whatever an implementation hands back.

pub mod crypto;
pub mod repository;
pub mod translator;
