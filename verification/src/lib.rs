//! An in-memory collection of todo records and the request handlers that
//! operate on it, with every handler's effect on the collection and its
//! reply stated as a contract.

pub mod clock;
pub mod handler;
pub mod ident;
pub mod model;
pub mod response;
pub mod schema;
pub mod semantics;
pub mod store;
pub mod theorems;
