//! An append-and-query store of tagged log entries: the record model, the text
//! form of its payload, the rules of the storage gateway and the request
//! handlers. Whoever owns the database performs the statements and reports
//! what came of them; everything that is decided is decided here.

pub mod codec;
pub mod error;
pub mod handlers;
pub mod json;
pub mod models;
pub mod store;
