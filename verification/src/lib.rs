//! Core of a mail client's backend layer: capability dispatch across
//! interchangeable transport backends, a stable aliasing scheme that maps
//! backend-native message identifiers to small integers, and translation of
//! backend results (flat or threaded envelope listings) into the user-facing
//! model.

pub mod account;
pub mod backend;
pub mod choice;
pub mod config;
pub mod digits;
pub mod envelope;
pub mod error;
pub mod id_mapper;
pub mod printer;
pub mod strutil;
pub mod thread;
pub mod validator;
pub mod wizard;

pub use digits::{parse_usize, usize_to_string};
pub use error::Error;
