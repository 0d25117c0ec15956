//! Personal finance tracking: the rules behind the HTTP service.
//!
//! The crate holds what the service decides: who may act (credential
//! tokens and the authentication guard), how every answer is wrapped (the
//! response envelope), which inputs a handler accepts, and when spending
//! against a budget raises an alert. Network and database work is done by
//! the program that links this library; it hands plain values in and acts
//! on the plain values it gets back.
//!
//! - `schema`: the response envelope and the request bodies.
//! - `models`: the stored records.
//! - `utils`: credential tokens, password hashes, identifiers, and the rules
//!   for names, passwords and addresses.
//! - `middleware`: the authentication guard.
//! - `handlers`: what each handler decides, and the budget alerts.
//! - `routes`: what the routes themselves decide.

pub mod handlers;
pub mod middleware;
pub mod models;
pub mod routes;
pub mod schema;
pub mod utils;
